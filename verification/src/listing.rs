//! Directory-listing lines for the data channel.
//!
//! Each entry becomes one line: a type flag (`d` for a directory, `-`
//! otherwise), a synthetic permissions string, a fixed link count and
//! placeholder owner and group, the byte size, the last-modified month, day
//! and hour:minute, and the entry's base name, terminated by CRLF. The civil
//! date of the modification timestamp comes from the `time` crate through a
//! trusted wrapper; everything around it is verified.

use vstd::prelude::*;
use vstd::string::StringSliceAdditionalSpecFns;
use crate::ascii::{dec_rep, push_decimal, append_str_bytes, SP, CR, LF, DASH, LOWER_D, COLON};
use crate::path::{base_name, spec_base_name};

verus! {

/// Earliest Unix timestamp whose civil date the `time` crate represents
/// (midnight of the first day of year -9999).
pub const TS_MIN: i64 = -377705116800;

/// Latest such timestamp (the last second of year 9999).
pub const TS_MAX: i64 = 253402300799;

/// Holds when the `time` crate can represent the timestamp's civil date.
pub open spec fn ts_in_civil_range(ts: int) -> bool {
    TS_MIN <= ts <= TS_MAX
}

/// The month, 1 through 12, of a representable timestamp's civil date in
/// UTC, as the `time` crate computes it.
pub uninterp spec fn month_of(ts: int) -> int;

/// The day of the month, 1 through 31, of a representable timestamp's civil
/// date in UTC, as the `time` crate computes it.
pub uninterp spec fn day_of(ts: int) -> int;

/// The hour, below 24, of a timestamp in UTC: the seconds within its day,
/// divided into hours.
pub open spec fn hour_of(ts: int) -> int {
    (ts % 86400) / 3600
}

/// The minute, below 60, of a timestamp in UTC: the seconds within its
/// hour, divided into minutes.
pub open spec fn minute_of(ts: int) -> int {
    ((ts % 86400) % 3600) / 60
}

/// Relies on `time::OffsetDateTime::from_unix_timestamp`, which succeeds
/// exactly for timestamps within years -9999 through 9999 (the bounds
/// `TS_MIN` and `TS_MAX`), and on its `month`, `day`, `hour` and `minute`
/// accessors. The constructed value carries the UTC offset, so the civil
/// parts are a function of the timestamp alone; the crate documents months
/// as 1..=12 and days as 1..=31. Hour and minute it computes directly from
/// the seconds within the day (Euclidean, so the remainder is never
/// negative), which `hour_of` and `minute_of` state exactly.
#[verifier::external_body]
fn civil_of_timestamp(ts: i64) -> (r: Option<(u8, u8, u8, u8)>)
    ensures
        r is Some <==> ts_in_civil_range(ts as int),
        r matches Some(c) ==> {
            &&& c.0 == month_of(ts as int) && 1 <= c.0 <= 12
            &&& c.1 == day_of(ts as int) && 1 <= c.1 <= 31
            &&& c.2 == hour_of(ts as int) && c.2 < 24
            &&& c.3 == minute_of(ts as int) && c.3 < 60
        },
{
    match time::OffsetDateTime::from_unix_timestamp(ts) {
        Ok(dt) => Some((dt.month() as u8, dt.day(), dt.hour(), dt.minute())),
        Err(_) => None,
    }
}

/// The English name of month `m`, 1 through 12.
pub open spec fn spec_month_name(m: int) -> Seq<u8> {
    if m == 1 {
        "January".spec_bytes()
    } else if m == 2 {
        "February".spec_bytes()
    } else if m == 3 {
        "March".spec_bytes()
    } else if m == 4 {
        "April".spec_bytes()
    } else if m == 5 {
        "May".spec_bytes()
    } else if m == 6 {
        "June".spec_bytes()
    } else if m == 7 {
        "July".spec_bytes()
    } else if m == 8 {
        "August".spec_bytes()
    } else if m == 9 {
        "September".spec_bytes()
    } else if m == 10 {
        "October".spec_bytes()
    } else if m == 11 {
        "November".spec_bytes()
    } else {
        "December".spec_bytes()
    }
}

/// The English name of month `m`.
fn month_name(m: u8) -> (s: &'static str)
    requires
        1 <= m <= 12,
    ensures
        s.spec_bytes() == spec_month_name(m as int),
{
    if m == 1 {
        "January"
    } else if m == 2 {
        "February"
    } else if m == 3 {
        "March"
    } else if m == 4 {
        "April"
    } else if m == 5 {
        "May"
    } else if m == 6 {
        "June"
    } else if m == 7 {
        "July"
    } else if m == 8 {
        "August"
    } else if m == 9 {
        "September"
    } else if m == 10 {
        "October"
    } else if m == 11 {
        "November"
    } else {
        "December"
    }
}

/// One directory entry, described by plain values: the entry's path (or
/// bare name), whether it is a directory, whether it is read-only, its size
/// in bytes, and its last-modified time as a Unix timestamp in seconds.
#[derive(Debug, Clone, PartialEq, Eq)]
pub struct FileEntry {
    /// Path or name of the entry; only the base name is listed.
    pub path: Vec<u8>,
    /// Whether the entry is a directory.
    pub is_dir: bool,
    /// Whether the entry is read-only.
    pub readonly: bool,
    /// Size in bytes.
    pub size: u64,
    /// Last-modified time, Unix seconds.
    pub modified: i64,
}

/// The mathematical value of a `FileEntry`.
pub ghost struct FileEntryView {
    /// Path bytes.
    pub path: Seq<u8>,
    /// Whether the entry is a directory.
    pub is_dir: bool,
    /// Whether the entry is read-only.
    pub readonly: bool,
    /// Size in bytes.
    pub size: u64,
    /// Last-modified time, Unix seconds.
    pub modified: i64,
}

impl View for FileEntry {
    type V = FileEntryView;

    open spec fn view(&self) -> FileEntryView {
        FileEntryView {
            path: self.path@,
            is_dir: self.is_dir,
            readonly: self.readonly,
            size: self.size,
            modified: self.modified,
        }
    }
}

/// The permissions string of an entry.
pub open spec fn spec_rights(readonly: bool) -> Seq<u8> {
    if readonly {
        "r--r--r--".spec_bytes()
    } else {
        "rw-rw-rw".spec_bytes()
    }
}

/// The listing line of one entry with a representable timestamp.
pub open spec fn spec_entry_line(e: FileEntryView) -> Seq<u8> {
    seq![if e.is_dir { LOWER_D } else { DASH }] + seq![SP] + spec_rights(e.readonly) + seq![SP]
        + "1 anonymous anonymous".spec_bytes() + seq![SP] + dec_rep(e.size as nat) + seq![SP]
        + spec_month_name(month_of(e.modified as int)) + seq![SP] + dec_rep(
        day_of(e.modified as int) as nat,
    ) + seq![SP] + dec_rep(hour_of(e.modified as int) as nat) + seq![COLON] + dec_rep(
        minute_of(e.modified as int) as nat,
    ) + seq![SP] + spec_base_name(e.path) + seq![CR, LF]
}

/// What one entry contributes to a listing: its line, or nothing when its
/// timestamp has no representable civil date.
pub open spec fn spec_entry_contribution(e: FileEntryView) -> Seq<u8> {
    if ts_in_civil_range(e.modified as int) {
        spec_entry_line(e)
    } else {
        Seq::<u8>::empty()
    }
}

/// Builds the listing line of one entry whose civil parts are given.
fn entry_line(entry: &FileEntry, month: u8, day: u8, hour: u8, minute: u8) -> (r: Vec<u8>)
    requires
        1 <= month <= 12,
        month == month_of(entry.modified as int),
        day == day_of(entry.modified as int),
        hour == hour_of(entry.modified as int),
        minute == minute_of(entry.modified as int),
    ensures
        r@ == spec_entry_line(entry@),
{
    let mut line: Vec<u8> = Vec::new();
    if entry.is_dir {
        line.push(LOWER_D);
    } else {
        line.push(DASH);
    }
    assert(line@ =~= seq![if entry@.is_dir { LOWER_D } else { DASH }]);
    let ghost p1 = line@;
    line.push(SP);
    assert(line@ =~= p1 + seq![SP]);
    if entry.readonly {
        append_str_bytes(&mut line, "r--r--r--");
    } else {
        append_str_bytes(&mut line, "rw-rw-rw");
    }
    let ghost p2 = line@;
    line.push(SP);
    assert(line@ =~= p2 + seq![SP]);
    append_str_bytes(&mut line, "1 anonymous anonymous");
    let ghost p3 = line@;
    line.push(SP);
    assert(line@ =~= p3 + seq![SP]);
    push_decimal(&mut line, entry.size);
    let ghost p4 = line@;
    line.push(SP);
    assert(line@ =~= p4 + seq![SP]);
    append_str_bytes(&mut line, month_name(month));
    let ghost p5 = line@;
    line.push(SP);
    assert(line@ =~= p5 + seq![SP]);
    push_decimal(&mut line, day as u64);
    let ghost p6 = line@;
    line.push(SP);
    assert(line@ =~= p6 + seq![SP]);
    push_decimal(&mut line, hour as u64);
    let ghost p7 = line@;
    line.push(COLON);
    assert(line@ =~= p7 + seq![COLON]);
    push_decimal(&mut line, minute as u64);
    let ghost p8 = line@;
    line.push(SP);
    assert(line@ =~= p8 + seq![SP]);
    let name = base_name(&entry.path);
    let ghost p9 = line@;
    let mut i: usize = 0;
    while i < name.len()
        invariant
            i <= name@.len(),
            line@ =~= p9 + name@.take(i as int),
        decreases name@.len() - i,
    {
        line.push(name[i]);
        assert(line@ =~= p9 + name@.take(i + 1));
        i = i + 1;
    }
    assert(line@ =~= p9 + name@);
    assert(name@ == spec_base_name(entry@.path));
    let ghost p10 = line@;
    line.push(CR);
    assert(line@ =~= p10 + seq![CR]);
    let ghost p11 = line@;
    line.push(LF);
    assert(line@ =~= p11 + seq![LF]);
    assert(p11 + seq![LF] =~= p10 + seq![CR, LF]);
    line
}

/// Appends the listing line of one entry to `out`. An entry whose timestamp
/// the `time` crate cannot represent is skipped, as an entry whose metadata
/// cannot be read is skipped by the caller.
pub fn add_file_info(entry: &FileEntry, out: &mut Vec<u8>)
    ensures
        final(out)@ == old(out)@ + spec_entry_contribution(entry@),
{
    let civil = civil_of_timestamp(entry.modified);
    match civil {
        None => {
            assert(out@ =~= old(out)@ + spec_entry_contribution(entry@));
        },
        Some(c) => {
            let (month, day, hour, minute) = c;
            let line = entry_line(entry, month, day, hour, minute);
            let mut i: usize = 0;
            while i < line.len()
                invariant
                    i <= line@.len(),
                    out@ =~= old(out)@ + line@.take(i as int),
                decreases line@.len() - i,
            {
                out.push(line[i]);
                assert(out@ =~= old(out)@ + line@.take(i + 1));
                i = i + 1;
            }
            assert(out@ =~= old(out)@ + line@);
        },
    }
}

/// The views of a sequence of entries.
pub open spec fn views_of(entries: Seq<FileEntry>) -> Seq<FileEntryView> {
    entries.map(|_i: int, e: FileEntry| e@)
}

/// The whole listing of a directory: the concatenated contributions of its
/// entries, in enumeration order.
pub open spec fn spec_listing(entries: Seq<FileEntryView>) -> Seq<u8>
    decreases entries.len(),
{
    if entries.len() == 0 {
        Seq::<u8>::empty()
    } else {
        spec_listing(entries.drop_last()) + spec_entry_contribution(entries.last())
    }
}

/// Law: a directory of two entries with representable timestamps lists as
/// exactly their two lines, in enumeration order, each the full entry line
/// (type flag, rights, size, civil date, base name) ending in CRLF.
pub proof fn lemma_listing_of_two_entries(a: FileEntryView, b: FileEntryView)
    requires
        ts_in_civil_range(a.modified as int),
        ts_in_civil_range(b.modified as int),
    ensures
        spec_listing(seq![a, b]) == spec_entry_line(a) + spec_entry_line(b),
{
    let one = seq![a];
    let two = seq![a, b];
    assert(two.drop_last() =~= one);
    assert(one.drop_last() =~= Seq::<FileEntryView>::empty());
    assert(one.last() == a);
    assert(two.last() == b);
    assert(spec_listing(Seq::<FileEntryView>::empty()) == Seq::<u8>::empty());
    assert(spec_listing(one) == spec_listing(Seq::<FileEntryView>::empty())
        + spec_entry_contribution(a));
    assert(Seq::<u8>::empty() + spec_entry_line(a) =~= spec_entry_line(a));
    assert(spec_listing(one) == spec_entry_line(a));
    assert(spec_listing(two) == spec_listing(one) + spec_entry_contribution(b));
}

/// Builds the full listing that the data channel transfers: one line per
/// entry, in the order given.
pub fn format_listing(entries: &Vec<FileEntry>) -> (r: Vec<u8>)
    ensures
        r@ == spec_listing(views_of(entries@)),
{
    let mut out: Vec<u8> = Vec::new();
    let mut i: usize = 0;
    while i < entries.len()
        invariant
            i <= entries@.len(),
            out@ == spec_listing(views_of(entries@.take(i as int))),
        decreases entries@.len() - i,
    {
        add_file_info(&entries[i], &mut out);
        proof {
            assert(views_of(entries@.take(i + 1)).drop_last() =~= views_of(
                entries@.take(i as int),
            ));
            assert(views_of(entries@.take(i + 1)).last() == entries@[i as int]@);
        }
        i = i + 1;
    }
    proof {
        assert(entries@.take(entries@.len() as int) =~= entries@);
    }
    out
}

} // verus!
