//! The world clock: which zones it lists, and for each its city, its offset from the
//! clock's own zone and whether it is daytime there.

use vstd::prelude::*;

use chrono_tz::Tz;

use crate::display::Tone;
use crate::clocks::{hour_at, hour_in, offset_at, offset_in, Timestamp};
use crate::text::{decimal, push_char, push_decimal};
use crate::zones::{city_name, city_of, parse_zone, same_zone, tz_from_name, tz_name, zone_name};

verus! {

/// The zones of the world clock: those configured, with the clock's own zone in front
/// where the list lacks it.
pub open spec fn tracked_zones(configured: Seq<Seq<char>>, own: Seq<char>) -> Seq<Seq<char>> {
    if configured.contains(own) {
        configured
    } else {
        seq![own] + configured
    }
}

/// The texts of a list of strings.
pub open spec fn texts(v: Seq<String>) -> Seq<Seq<char>> {
    v.map_values(|s: String| s@)
}

/// The zone names the world clock lists, the clock's own zone `own` first where
/// `configured` lacks it.
pub fn tracked_zone_names(configured: &Vec<String>, own: &str) -> (zones: Vec<String>)
    ensures
        texts(zones@) == tracked_zones(texts(configured@), own@),
{
    let own_text = own.to_owned();
    let mut zones: Vec<String> = Vec::new();
    let mut found = false;
    let mut i: usize = 0;
    while i < configured.len()
        invariant
            own_text@ == own@,
            i <= configured.len(),
            texts(zones@) =~= texts(configured@).take(i as int),
            found <==> texts(configured@).take(i as int).contains(own@),
        decreases configured.len() - i,
    {
        let item = configured[i].clone();
        let same = item == own_text;
        assert(same == (item@ == own@));
        let ghost before = texts(configured@).take(i as int);
        let ghost after = texts(configured@).take(i + 1);
        assert(after =~= before.push(item@));
        proof {
            if same {
                assert(after[i as int] == own@);
            } else {
                if after.contains(own@) {
                    let k = choose|k: int| 0 <= k < after.len() && after[k] == own@;
                    assert(k < before.len());
                    assert(before[k] == own@);
                }
                if before.contains(own@) {
                    let k = choose|k: int| 0 <= k < before.len() && before[k] == own@;
                    assert(after[k] == own@);
                }
            }
        }
        if same {
            found = true;
        }
        zones.push(item);
        i = i + 1;
    }
    assert(texts(configured@).take(configured.len() as int) =~= texts(configured@));
    if !found {
        zones.insert(0, own_text);
        assert(texts(zones@) =~= seq![own@] + texts(configured@));
    }
    zones
}

/// An offset between zones as the world clock prints it: whole hours, signed, with `h`;
/// nothing for less than an hour either way.
pub open spec fn offset_label(diff_secs: int) -> Seq<char> {
    if diff_secs >= 0 {
        let hours = diff_secs / 3600;
        if hours == 0 { Seq::empty() } else { seq!['+'] + decimal(hours as nat) + seq!['h'] }
    } else {
        let hours = (-diff_secs) / 3600;
        if hours == 0 { Seq::empty() } else { seq!['-'] + decimal(hours as nat) + seq!['h'] }
    }
}

/// The offset label for `diff_secs` seconds, as `format!("{:+}h")` of the hours
/// truncated towards zero.
pub fn offset_label_text(diff_secs: i32) -> (t: String)
    ensures
        t@ == offset_label(diff_secs as int),
{
    let diff = diff_secs as i64;
    let mut t = String::new();
    if diff >= 0 {
        let hours = diff / 3600;
        if hours != 0 {
            push_char(&mut t, '+');
            push_decimal(&mut t, hours as u64);
            push_char(&mut t, 'h');
        }
    } else {
        let hours = (-diff) / 3600;
        if hours != 0 {
            push_char(&mut t, '-');
            push_decimal(&mut t, hours as u64);
            push_char(&mut t, 'h');
        }
    }
    assert(t@ =~= offset_label(diff_secs as int));
    t
}

/// Whether `hour` lies in the daylight hours from `start` to `end`; a span that passes
/// midnight (`start` after `end`) wraps round.
pub open spec fn daylight(hour: nat, start: nat, end: nat) -> bool {
    if start <= end {
        start <= hour && hour < end
    } else {
        hour >= start || hour < end
    }
}

/// Whether it is daytime at `hour`.
pub fn is_daylight(hour: u32, start: u32, end: u32) -> (b: bool)
    ensures
        b == daylight(hour as nat, start as nat, end as nat),
{
    if start <= end {
        hour >= start && hour < end
    } else {
        hour >= start || hour < end
    }
}

/// The colour of a line of the world clock: yellow or white by day, cyan or light cyan by
/// night, the first of each for the clock's own zone.
pub open spec fn row_tone_of(daylight: bool, primary: bool) -> Tone {
    if daylight {
        if primary { Tone::Yellow } else { Tone::White }
    } else {
        if primary { Tone::Cyan } else { Tone::LightCyan }
    }
}

/// The colour of a line of the world clock.
pub fn row_tone(daylight: bool, primary: bool) -> (t: Tone)
    ensures
        t == row_tone_of(daylight, primary),
{
    if daylight {
        if primary { Tone::Yellow } else { Tone::White }
    } else {
        if primary { Tone::Cyan } else { Tone::LightCyan }
    }
}

/// The label of the clock panel's header: the city of the zone in capitals, then a space.
pub fn header_label(tz: Tz) -> (label: String)
    ensures
        label@ == upper_case(city_of(tz_name(tz))) + seq![' '],
{
    let city = city_name(zone_name(tz));
    let mut label = to_upper(city.as_str());
    push_char(&mut label, ' ');
    label
}

/// `str::to_uppercase`: the Unicode upper case of a text.
pub uninterp spec fn upper_case(s: Seq<char>) -> Seq<char>;

/// `str::to_uppercase`.
#[verifier::external_body]
pub(crate) fn to_upper(s: &str) -> (u: String)
    ensures
        u@ == upper_case(s@),
{
    s.to_uppercase()
}

/// One line of the world clock.
#[derive(Debug)]
pub struct WorldRow {
    /// The zone.
    pub zone: Tz,
    /// The city, in capitals.
    pub city: String,
    /// Its offset from the clock's own zone, e.g. `+9h`.
    pub offset: String,
    /// Whether it is the clock's own zone.
    pub primary: bool,
    /// Whether it is daytime there.
    pub daylight: bool,
}

/// The line of the world clock for the zone named `zone` at the moment `now`, where the
/// name is one that `Tz::from_str` knows.
pub open spec fn row_fits(
    row: WorldRow,
    zone: Seq<char>,
    own: Tz,
    now: Timestamp,
    start: nat,
    end: nat,
) -> bool {
    let (s, n) = (now.spec_secs(), now.spec_nanos());
    &&& tz_from_name(zone) == Some(row.zone)
    &&& tz_name(row.zone) == zone
    &&& row.city@ == upper_case(city_of(tz_name(row.zone)))
    &&& row.offset@ == offset_label(offset_in(s, n, row.zone) - offset_in(s, n, own))
    &&& row.primary == (row.zone == own)
    &&& row.daylight == daylight(hour_in(s, n, row.zone), start, end)
}

/// The line of the world clock for the zone named `zone`, or `None` for a name that
/// `Tz::from_str` does not know.
pub fn world_row(zone: &str, own: Tz, now: Timestamp, start: u32, end: u32) -> (row: Option<WorldRow>)
    ensures
        row is None <==> tz_from_name(zone@) is None,
        row matches Some(r) ==> row_fits(r, zone@, own, now, start as nat, end as nat),
{
    let tz = match parse_zone(zone) {
        Some(tz) => tz,
        None => {
            return None;
        },
    };
    proof { use_type_invariant(&now); }
    let city = city_name(zone_name(tz));
    let diff = offset_at(now, tz) - offset_at(now, own);
    Some(
        WorldRow {
            zone: tz,
            city: to_upper(city.as_str()),
            offset: offset_label_text(diff),
            primary: same_zone(tz, own),
            daylight: is_daylight(hour_at(now, tz), start, end),
        },
    )
}

/// The lines of the world clock for the zone names `zones`: one for each name that
/// `Tz::from_str` knows, in order.
pub open spec fn rows_fit(
    rows: Seq<WorldRow>,
    zones: Seq<Seq<char>>,
    own: Tz,
    now: Timestamp,
    start: nat,
    end: nat,
) -> bool
    decreases zones.len(),
{
    if zones.len() == 0 {
        rows.len() == 0
    } else if tz_from_name(zones.last()) is Some {
        rows.len() > 0 && row_fits(rows.last(), zones.last(), own, now, start, end) && rows_fit(
            rows.drop_last(),
            zones.drop_last(),
            own,
            now,
            start,
            end,
        )
    } else {
        rows_fit(rows, zones.drop_last(), own, now, start, end)
    }
}

/// The world clock at the moment `now`: the configured zones, the clock's own zone first
/// where they lack it, each name `Tz::from_str` does not know skipped.
pub fn world_rows(configured: &Vec<String>, own: Tz, now: Timestamp, start: u32, end: u32) -> (rows: Vec<WorldRow>)
    ensures
        rows_fit(rows@, tracked_zones(texts(configured@), tz_name(own)), own, now, start as nat, end as nat),
{
    let zones = tracked_zone_names(configured, zone_name(own));
    let ghost all = texts(zones@);
    let mut rows: Vec<WorldRow> = Vec::new();
    let mut i: usize = 0;
    assert(all.take(0) =~= Seq::<Seq<char>>::empty());
    while i < zones.len()
        invariant
            i <= zones.len(),
            all == texts(zones@),
            rows_fit(rows@, all.take(i as int), own, now, start as nat, end as nat),
        decreases zones.len() - i,
    {
        assert(all.take(i + 1).drop_last() =~= all.take(i as int));
        match world_row(zones[i].as_str(), own, now, start, end) {
            Some(row) => {
                let ghost before = rows@;
                rows.push(row);
                assert(rows@.drop_last() =~= before);
            },
            None => {},
        }
        i = i + 1;
    }
    assert(all.take(zones.len() as int) =~= all);
    rows
}

} // verus!

verus! {

/// A copy of a list of strings.
pub(crate) fn copy_texts(v: &Vec<String>) -> (c: Vec<String>)
    ensures
        texts(c@) == texts(v@),
{
    let mut c: Vec<String> = Vec::new();
    let mut i: usize = 0;
    while i < v.len()
        invariant
            i <= v.len(),
            texts(c@) =~= texts(v@).take(i as int),
        decreases v.len() - i,
    {
        let item = v[i].clone();
        c.push(item);
        assert(texts(v@).take(i + 1) =~= texts(v@).take(i as int).push(v@[i as int]@));
        i = i + 1;
    }
    assert(texts(v@).take(v.len() as int) =~= texts(v@));
    c
}

} // verus!
