//! The help menu: its rows, grouped under a header for each mode.

use vstd::prelude::*;

verus! {

/// The number of rows of the help menu.
pub const HELP_ROWS: usize = 16;

/// The row of the help menu where the timer's keys start (its header).
pub const TIMER_SECTION: usize = 8;

/// The row of the help menu where the stopwatch's keys start (its header).
pub const STOPWATCH_SECTION: usize = 11;

/// A row of the help menu: a section header, or a key and what it does.
#[derive(Debug, Clone, Copy)]
pub struct HelpRow {
    pub is_header: bool,
    pub shortcut: &'static str,
    pub description: &'static str,
    pub category: &'static str,
}

/// The section a row of the help menu belongs to.
pub open spec fn help_category(index: int) -> Seq<char> {
    if index < TIMER_SECTION {
        "Global"@
    } else if index < STOPWATCH_SECTION {
        "Timer"@
    } else {
        "Stopwatch"@
    }
}

/// The key and the description of each row of the help menu.
pub open spec fn help_text(index: int) -> (Seq<char>, Seq<char>) {
    if index == 0 { (""@, "--- Global & Clock Controls ---"@) }
    else if index == 1 { (" Esc "@, "Cycle view mode panels forward"@) }
    else if index == 2 { ("  ?  "@, "Toggle this interactive help panel"@) }
    else if index == 3 { ("  q  "@, "Quit"@) }
    else if index == 4 { ("  1  "@, "Clock mode"@) }
    else if index == 5 { ("  2  "@, "Timer mode"@) }
    else if index == 6 { ("  3  "@, "Stopwatch mode"@) }
    else if index == 7 { ("  4  "@, "World Clock mode"@) }
    else if index == 8 { (""@, "--- Timer Controls ---"@) }
    else if index == 9 { ("Space"@, "Toggle timer (Start/Pause)"@) }
    else if index == 10 { ("  r  "@, "Reset and restart timer"@) }
    else if index == 11 { (""@, "--- Stopwatch Controls ---"@) }
    else if index == 12 { ("Space"@, "Toggle stopwatch ticker (Start/Pause)"@) }
    else if index == 13 { ("  l  "@, "Record split lap fragment duration"@) }
    else if index == 14 { ("  r  "@, "Reset stopwatch accumulator values to zero"@) }
    else { ("Enter"@, "Toggle historic lap overlay viewer"@) }
}

/// Whether a row of the help menu heads a section.
pub open spec fn is_help_header(index: int) -> bool {
    index == 0 || index == TIMER_SECTION || index == STOPWATCH_SECTION
}

fn row(is_header: bool, shortcut: &'static str, description: &'static str, category: &'static str) -> (r: HelpRow)
    ensures
        r.is_header == is_header,
        r.shortcut@ == shortcut@,
        r.description@ == description@,
        r.category@ == category@,
{
    HelpRow { is_header, shortcut, description, category }
}

/// The rows of the help menu: the global keys, then the timer's, then the stopwatch's,
/// each section under its header.
pub fn help_manifest() -> (rows: Vec<HelpRow>)
    ensures
        rows.len() == HELP_ROWS,
        forall|i: int| 0 <= i < HELP_ROWS ==> (#[trigger] rows@[i]).is_header == is_help_header(i),
        forall|i: int| 0 <= i < HELP_ROWS ==> (#[trigger] rows@[i]).category@ == help_category(i),
        forall|i: int| 0 <= i < HELP_ROWS ==> (#[trigger] rows@[i]).shortcut@ == help_text(i).0
            && rows@[i].description@ == help_text(i).1,
{
    let rows = vec![
        row(true, "", "--- Global & Clock Controls ---", "Global"),
        row(false, " Esc ", "Cycle view mode panels forward", "Global"),
        row(false, "  ?  ", "Toggle this interactive help panel", "Global"),
        row(false, "  q  ", "Quit", "Global"),
        row(false, "  1  ", "Clock mode", "Global"),
        row(false, "  2  ", "Timer mode", "Global"),
        row(false, "  3  ", "Stopwatch mode", "Global"),
        row(false, "  4  ", "World Clock mode", "Global"),
        row(true, "", "--- Timer Controls ---", "Timer"),
        row(false, "Space", "Toggle timer (Start/Pause)", "Timer"),
        row(false, "  r  ", "Reset and restart timer", "Timer"),
        row(true, "", "--- Stopwatch Controls ---", "Stopwatch"),
        row(false, "Space", "Toggle stopwatch ticker (Start/Pause)", "Stopwatch"),
        row(false, "  l  ", "Record split lap fragment duration", "Stopwatch"),
        row(false, "  r  ", "Reset stopwatch accumulator values to zero", "Stopwatch"),
        row(false, "Enter", "Toggle historic lap overlay viewer", "Stopwatch"),
    ];
    assert forall|i: int| 0 <= i < HELP_ROWS implies (#[trigger] rows@[i]).is_header == is_help_header(i)
        && rows@[i].category@ == help_category(i) && rows@[i].shortcut@ == help_text(i).0
        && rows@[i].description@ == help_text(i).1 by {
        if i == 0 {} else if i == 1 {} else if i == 2 {} else if i == 3 {}
        else if i == 4 {} else if i == 5 {} else if i == 6 {} else if i == 7 {}
        else if i == 8 {} else if i == 9 {} else if i == 10 {} else if i == 11 {}
        else if i == 12 {} else if i == 13 {} else if i == 14 {} else {}
    }
    rows
}

} // verus!
