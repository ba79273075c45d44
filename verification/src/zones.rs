//! Time zones: which zone the clock shows, the city names it prints for them, and the
//! calls into `chrono_tz` and `iana_time_zone` behind those rules.

use vstd::prelude::*;

use chrono_tz::Tz;

use crate::text::push_char;

verus! {

#[verifier::external_type_specification]
#[verifier::external_body]
pub struct ExTz(chrono_tz::Tz);

/// The IANA name of a zone, as `Tz::name` returns it (and as its `Debug` form prints it).
pub uninterp spec fn tz_name(tz: Tz) -> Seq<char>;

/// The zone that `Tz::from_str` finds for a name, if any.
pub uninterp spec fn tz_from_name(name: Seq<char>) -> Option<Tz>;

/// `Tz::name`. The table that `Tz::from_str` searches maps each zone's name back to that
/// zone, which the second clause states; no zone name is empty or holds white space.
#[verifier::external_body]
pub(crate) fn zone_name(tz: Tz) -> (name: &'static str)
    ensures
        name@ == tz_name(tz),
        tz_from_name(name@) == Some(tz),
        name@.len() > 0,
        forall|i: int| 0 <= i < name@.len() ==> !is_white_space(#[trigger] name@[i]),
{
    tz.name()
}

/// `Tz::from_str`, with its error dropped. A zone found for a name carries that name.
#[verifier::external_body]
pub(crate) fn parse_zone(text: &str) -> (tz: Option<Tz>)
    ensures
        tz == tz_from_name(text@),
        tz matches Some(z) ==> tz_name(z) == text@,
{
    text.parse::<Tz>().ok()
}

/// `chrono_tz::UTC`: the zone named `UTC`, which `Tz::from_str` finds under that name.
#[verifier::external_body]
pub(crate) fn utc_zone() -> (tz: Tz)
    ensures
        tz_name(tz) == "UTC"@,
        tz_from_name("UTC"@) == Some(tz),
{
    chrono_tz::UTC
}

/// `==` on zones (derived by `chrono_tz`: the same variant).
#[verifier::external_body]
pub(crate) fn same_zone(a: Tz, b: Tz) -> (r: bool)
    ensures
        r == (a == b),
{
    a == b
}

/// `iana_time_zone::get_timezone`, with its error dropped. What it returns depends on the
/// machine it runs on, so nothing is stated of it.
#[verifier::external_body]
pub(crate) fn system_zone_name() -> Option<String> {
    iana_time_zone::get_timezone().ok()
}

/// The characters with the Unicode `White_Space` property, which `char::is_whitespace`
/// and `str::trim` go by.
pub open spec fn is_white_space(c: char) -> bool {
    let n = c as u32;
    ||| 0x09 <= n <= 0x0d
    ||| n == 0x20
    ||| n == 0x85
    ||| n == 0xa0
    ||| n == 0x1680
    ||| 0x2000 <= n <= 0x200a
    ||| n == 0x2028
    ||| n == 0x2029
    ||| n == 0x202f
    ||| n == 0x205f
    ||| n == 0x3000
}

/// Whether a text is empty once trimmed: every character of it is white space.
pub open spec fn is_blank(s: Seq<char>) -> bool {
    forall|i: int| 0 <= i < s.len() ==> is_white_space(#[trigger] s[i])
}

fn white_space(c: char) -> (b: bool)
    ensures
        b == is_white_space(c),
{
    let n = c as u32;
    (0x09 <= n && n <= 0x0d) || n == 0x20 || n == 0x85 || n == 0xa0 || n == 0x1680 || (0x2000 <= n
        && n <= 0x200a) || n == 0x2028 || n == 0x2029 || n == 0x202f || n == 0x205f || n == 0x3000
}

/// Whether `s.trim().is_empty()`.
fn blank(s: &str) -> (b: bool)
    ensures
        b == is_blank(s@),
{
    let len = s.unicode_len();
    let mut i: usize = 0;
    while i < len
        invariant
            len == s@.len(),
            i <= len,
            forall|j: int| 0 <= j < i ==> is_white_space(#[trigger] s@[j]),
        decreases len - i,
    {
        if !white_space(s.get_char(i)) {
            return false;
        }
        i = i + 1;
    }
    true
}

/// The zone named on the command line or in the configuration: a zone name that is not
/// blank and that `Tz::from_str` knows.
pub open spec fn named_zone(input: Seq<char>) -> Option<Tz> {
    if !is_blank(input) {
        tz_from_name(input)
    } else {
        None
    }
}

/// The zone the clock falls back to: the system's zone where it has a name that
/// `Tz::from_str` knows, else UTC.
pub open spec fn fallback_zone(system: Option<Seq<char>>) -> Tz {
    match system {
        Some(name) => match tz_from_name(name) {
            Some(tz) => tz,
            None => tz_from_name("UTC"@)->0,
        },
        None => tz_from_name("UTC"@)->0,
    }
}

/// The zone the clock shows for `input` on a machine whose zone is named `system`.
pub open spec fn resolved_zone(input: Seq<char>, system: Option<Seq<char>>) -> Tz {
    match named_zone(input) {
        Some(tz) => tz,
        None => fallback_zone(system),
    }
}

/// The zone named by `input`, where it names one.
fn explicit_zone(input: &str) -> (tz: Option<Tz>)
    ensures
        tz == named_zone(input@),
{
    if !blank(input) {
        parse_zone(input)
    } else {
        None
    }
}

/// The zone of the machine named `system` where `Tz::from_str` knows it, else UTC.
fn system_or_utc(system: Option<&str>) -> (tz: Tz)
    ensures
        tz == fallback_zone(
            match system {
                Some(s) => Some(s@),
                None => None,
            },
        ),
{
    match system {
        Some(name) => match parse_zone(name) {
            Some(tz) => {
                return tz;
            },
            None => {},
        },
        None => {},
    }
    utc_zone()
}

/// The zone for `input` on a machine whose own zone is named `system`.
pub fn resolve_timezone_with(input: &str, system: Option<&str>) -> (tz: Tz)
    ensures
        tz == resolved_zone(
            input@,
            match system {
                Some(s) => Some(s@),
                None => None,
            },
        ),
{
    match explicit_zone(input) {
        Some(tz) => tz,
        None => system_or_utc(system),
    }
}

/// The zone the clock shows for `input`: the zone it names, else the machine's own zone,
/// else UTC. The machine's zone is looked up only where `input` names none.
pub fn resolve_timezone(input: &str) -> (tz: Tz)
    ensures
        named_zone(input@) matches Some(z) ==> tz == z,
        exists|system: Option<Seq<char>>| tz == resolved_zone(input@, system),
{
    match explicit_zone(input) {
        Some(tz) => {
            assert(tz == resolved_zone(input@, None));
            tz
        },
        None => {
            let system = system_zone_name();
            let tz = match &system {
                Some(name) => system_or_utc(Some(name.as_str())),
                None => system_or_utc(None),
            };
            let ghost seen: Option<Seq<char>> = match system {
                Some(name) => Some(name@),
                None => None,
            };
            assert(tz == resolved_zone(input@, seen));
            tz
        },
    }
}

/// The part of a zone name after its last `/` (the whole name where it has none).
pub open spec fn last_segment(name: Seq<char>) -> Seq<char>
    decreases name.len(),
{
    if name.len() == 0 {
        name
    } else if name.last() == '/' {
        Seq::empty()
    } else {
        last_segment(name.drop_last()).push(name.last())
    }
}

/// The city of a zone name: its last segment, with underscores printed as spaces.
pub open spec fn city_of(name: Seq<char>) -> Seq<char> {
    last_segment(name).map_values(|c: char| if c == '_' { ' ' } else { c })
}

proof fn lemma_last_segment_from(name: Seq<char>, start: int)
    requires
        0 <= start <= name.len(),
        start == 0 || name[start - 1] == '/',
        forall|j: int| start <= j < name.len() ==> name[j] != '/',
    ensures
        last_segment(name) == name.subrange(start, name.len() as int),
    decreases name.len(),
{
    if name.len() == start {
        if start > 0 {
            assert(name.last() == '/');
        }
        assert(name.subrange(start, name.len() as int) =~= Seq::<char>::empty());
    } else {
        lemma_last_segment_from(name.drop_last(), start);
        assert(name.subrange(start, name.len() as int) =~= name.drop_last().subrange(
            start,
            name.len() - 1,
        ).push(name.last()));
    }
}

/// The city of a zone name, as the header and the world clock print it:
/// `America/New_York` gives `New York`.
pub fn city_name(name: &str) -> (city: String)
    ensures
        city@ == city_of(name@),
{
    let len = name.unicode_len();
    let mut start: usize = 0;
    let mut i: usize = 0;
    while i < len
        invariant
            len == name@.len(),
            start <= i <= len,
            start == 0 || name@[start - 1] == '/',
            forall|j: int| start <= j < i ==> name@[j] != '/',
        decreases len - i,
    {
        if name.get_char(i) == '/' {
            start = i + 1;
        }
        i = i + 1;
    }
    proof {
        lemma_last_segment_from(name@, start as int);
    }
    let ghost segment = name@.subrange(start as int, len as int);
    let mut city = String::new();
    let mut k: usize = start;
    while k < len
        invariant
            len == name@.len(),
            start <= k <= len,
            segment == name@.subrange(start as int, len as int),
            city@ =~= segment.subrange(0, k - start).map_values(
                |c: char| if c == '_' { ' ' } else { c },
            ),
        decreases len - k,
    {
        let c = name.get_char(k);
        if c == '_' {
            push_char(&mut city, ' ');
        } else {
            push_char(&mut city, c);
        }
        assert(segment.subrange(0, k + 1 - start) =~= segment.subrange(0, k - start).push(c));
        k = k + 1;
    }
    assert(segment.subrange(0, len - start) =~= segment);
    city
}

/// The city of a zone, e.g. `New York` for `America/New_York`.
pub fn tz_city_name(tz: Tz) -> (city: String)
    ensures
        city@ == city_of(tz_name(tz)),
{
    city_name(zone_name(tz))
}

} // verus!
