//! Names of the files of a run.

use crate::calendar::{
    date_of_clock, lemma_iso_text_is_injective, lemma_iso_text_sorts, CalendarDate,
};
use crate::text::{
    lemma_sorts_behind_prefix, lemma_sorts_with_tails, sorts_before, strip_suffix, without_suffix,
};
use vstd::prelude::*;
use vstd::string::*;

verus! {

/// What every archive name starts with.
pub const NAME_PREFIX: &'static str = "psc-snapshot-";

/// What stands between the date and the partition.
pub const NAME_SEPARATOR: &'static str = "_";

/// What every archive name ends with.
pub const ARCHIVE_SUFFIX: &'static str = ".zip";

/// What the name of an unpacked snapshot is expected to end with.
pub const TEXT_SUFFIX: &'static str = ".txt";

/// What the name of a table ends with.
pub const TABLE_SUFFIX: &'static str = ".csv";

/// The part of an archive name that follows the date.
pub open spec fn name_tail(partition: Seq<char>) -> Seq<char> {
    NAME_SEPARATOR@ + partition + ARCHIVE_SUFFIX@
}

/// The name of the archive that holds the given partition of the snapshot
/// of the given day: `psc-snapshot-<date>_<partition>.zip`.
pub open spec fn partition_fname(date: CalendarDate, partition: Seq<char>) -> Seq<char> {
    NAME_PREFIX@ + date.iso_text() + name_tail(partition)
}

/// The name of the archive of a partition of the snapshot of the day that a
/// reading of the clock falls on, where it falls on one.
pub open spec fn fname_at(reading: Option<u64>, partition: Seq<char>) -> Option<Seq<char>> {
    match date_of_clock(reading) {
        Some(date) => Some(partition_fname(date, partition)),
        None => None,
    }
}

/// Names the archive of a partition of today's snapshot, where the clock
/// gives a date.
///
/// What the clock reads is the clock's to say. Whatever it reads, there is
/// a name exactly where the reading falls on a day, and the name is the one
/// that [`define_partition_fname`] gives for that day.
pub fn define_todays_fname(partition: &str) -> (name: Option<String>)
    ensures
        exists|reading: Option<u64>| name.deep_view() == #[trigger] fname_at(reading, partition@),
        name matches Some(n) ==> exists|date: CalendarDate|
            date.well_formed() && n@ == #[trigger] partition_fname(date, partition@),
{
    let today = CalendarDate::today();
    let ghost reading = choose|reading: Option<u64>| today == date_of_clock(reading);
    let name = match today {
        Some(date) => Some(define_partition_fname(&date, partition)),
        None => None,
    };
    assert(name.deep_view() == fname_at(reading, partition@));
    name
}

/// Names the archive of a partition of the snapshot of `date`.
pub fn define_partition_fname(date: &CalendarDate, partition: &str) -> (name: String)
    ensures
        name@ == partition_fname(*date, partition@),
{
    let mut name = String::from_str(NAME_PREFIX);
    let day = date.to_iso_string();
    name.append(day.as_str());
    name.append(NAME_SEPARATOR);
    name.append(partition);
    name.append(ARCHIVE_SUFFIX);
    assert(name@ =~= partition_fname(*date, partition@));
    name
}

/// The names of the archives of one partition on two days differ in the
/// date and in nothing else: the same text stands before the date and the
/// same text after it, and the names are the same only where the days are.
pub proof fn lemma_fname_differs_only_in_date(
    a: CalendarDate,
    b: CalendarDate,
    partition: Seq<char>,
)
    requires
        a.well_formed(),
        b.well_formed(),
    ensures
        partition_fname(a, partition) == NAME_PREFIX@ + a.iso_text() + name_tail(partition),
        partition_fname(b, partition) == NAME_PREFIX@ + b.iso_text() + name_tail(partition),
        partition_fname(a, partition) == partition_fname(b, partition) <==> a == b,
{
    if partition_fname(a, partition) == partition_fname(b, partition) {
        let name = partition_fname(a, partition);
        let start = NAME_PREFIX@.len() as int;
        let end = name.len() - name_tail(partition).len();
        assert(name.subrange(start, end) =~= a.iso_text());
        assert(name.subrange(start, end) =~= b.iso_text());
        lemma_iso_text_is_injective(a, b);
    }
}

/// Between the years 0 and 9999 the names of the archives of one partition
/// sort as their days do.
pub proof fn lemma_fnames_sort_as_dates(a: CalendarDate, b: CalendarDate, partition: Seq<char>)
    requires
        a.well_formed(),
        b.well_formed(),
        0 <= a.spec_year() <= 9999,
        0 <= b.spec_year() <= 9999,
        a.comes_before(b),
    ensures
        sorts_before(partition_fname(a, partition), partition_fname(b, partition)),
{
    let tail = name_tail(partition);
    lemma_iso_text_sorts(a, b);
    lemma_sorts_with_tails(a.iso_text(), b.iso_text(), tail, tail);
    lemma_sorts_behind_prefix(NAME_PREFIX@, a.iso_text() + tail, b.iso_text() + tail);
    assert(partition_fname(a, partition) =~= NAME_PREFIX@ + (a.iso_text() + tail));
    assert(partition_fname(b, partition) =~= NAME_PREFIX@ + (b.iso_text() + tail));
}

/// The name of the table made from the file of the given name: that name
/// with `.csv` in place of the `.txt` at its end, or after its end where it
/// does not end so.
pub open spec fn table_fname(text_name: Seq<char>) -> Seq<char> {
    without_suffix(text_name, TEXT_SUFFIX@) + TABLE_SUFFIX@
}

/// Names the table made from the file of the given name.
pub fn define_table_fname(text_name: &str) -> (name: String)
    ensures
        name@ == table_fname(text_name@),
{
    let mut name = String::from_str(strip_suffix(text_name, TEXT_SUFFIX));
    name.append(TABLE_SUFFIX);
    name
}

/// Whether a name is that of a file in the directory a run works in: it is
/// not empty, is not `.` or `..`, and holds neither `/` nor `\`.
pub open spec fn is_local_name(name: Seq<char>) -> bool {
    &&& name.len() > 0
    &&& name != seq!['.']
    &&& name != seq!['.', '.']
    &&& forall|i: int| 0 <= i < name.len() ==> name[i] != '/' && name[i] != '\\'
}

/// Tells whether a name can be written to without leaving the directory a
/// run works in. The name that an archive stores for its entry is the
/// archive's to choose, and may point anywhere.
pub fn is_local_fname(name: &str) -> (local: bool)
    ensures
        local == is_local_name(name@),
{
    let n = name.unicode_len();
    if n == 0 {
        return false;
    }
    let mut dots: usize = 0;
    let mut i: usize = 0;
    while i < n
        invariant
            i <= n,
            n == name@.len(),
            dots <= i,
            dots == i <==> forall|j: int| 0 <= j < i ==> name@[j] == '.',
            forall|j: int| 0 <= j < i ==> name@[j] != '/' && name@[j] != '\\',
        decreases n - i,
    {
        let c = name.get_char(i);
        if c == '/' || c == '\\' {
            return false;
        }
        if c == '.' {
            dots += 1;
        }
        i += 1;
    }
    if n <= 2 && dots == n {
        assert(name@ =~= seq!['.'] || name@ =~= seq!['.', '.']);
        return false;
    }
    proof {
        if name@ == seq!['.'] {
            assert(n == 1);
            assert(forall|j: int| 0 <= j < 1 ==> name@[j] == '.');
        }
        if name@ == seq!['.', '.'] {
            assert(n == 2);
            assert(forall|j: int| 0 <= j < 2 ==> name@[j] == '.');
        }
    }
    true
}

} // verus!
