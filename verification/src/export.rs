//! The table of records as a CSV document.
//!
//! The document starts with a line that names the columns, and has one line
//! for each record after it. The `csv` crate writes each line: it decides
//! where a field needs quotes and how a line ends.

use crate::flatten::{flat_rows, header, header_row, transform_rows, FlatRowView, COLUMNS};
use crate::record::{Company, CompanyView};
use vstd::prelude::*;

verus! {

/// The bytes that `csv` writes for one record with these fields into an
/// empty document.
pub uninterp spec fn csv_record_bytes(fields: Seq<Seq<char>>) -> Seq<u8>;

/// `csv::Writer::from_writer` over an empty buffer, then `write_record` and
/// `into_inner`.
///
/// Trusted: the record is written, and the bytes that then stand in the
/// buffer are determined by the fields. `csv` refuses a record only where
/// the writer under it fails or where an earlier record of the same writer
/// had another number of fields; a buffer in memory takes every write, and
/// the writer is a new one.
#[verifier::external_body]
fn encode_record(fields: &Vec<String>) -> (bytes: Option<Vec<u8>>)
    ensures
        bytes is Some,
        bytes matches Some(line) ==> line@ == csv_record_bytes(fields.deep_view()),
{
    let mut writer = csv::Writer::from_writer(Vec::new());
    writer.write_record(fields).ok()?;
    writer.into_inner().ok()
}

/// The records of the table of some rows: the header, then the rows.
pub open spec fn table(rows: Seq<FlatRowView>) -> Seq<Seq<Seq<char>>> {
    seq![header()] + Seq::new(rows.len(), |i: int| rows[i].fields())
}

/// The lines one after the other.
pub open spec fn concatenated(lines: Seq<Seq<u8>>) -> Seq<u8>
    decreases lines.len(),
{
    if lines.len() == 0 {
        Seq::empty()
    } else {
        concatenated(lines.drop_last()) + lines.last()
    }
}

/// The CSV document of a table: what `csv` writes for each of its records,
/// one after the other.
pub open spec fn csv_document(records: Seq<Seq<Seq<char>>>) -> Seq<u8> {
    concatenated(Seq::new(records.len(), |i: int| csv_record_bytes(records[i])))
}

/// The CSV document of some records of the snapshot: the header, then the
/// row of each record, in their order.
pub open spec fn exported(companies: Seq<CompanyView>) -> Seq<u8> {
    csv_document(table(flat_rows(companies)))
}

/// The lines as mathematical values.
pub open spec fn lines_view(lines: Seq<Vec<u8>>) -> Seq<Seq<u8>> {
    Seq::new(lines.len(), |i: int| lines[i]@)
}

/// Puts the lines written for the records of a table together, one after
/// the other.
pub fn assemble(lines: &Vec<Vec<u8>>) -> (bytes: Vec<u8>)
    ensures
        bytes@ == concatenated(lines_view(lines@)),
{
    let mut bytes: Vec<u8> = Vec::new();
    let mut i: usize = 0;
    assert(lines_view(lines@).subrange(0, 0) =~= Seq::empty());
    while i < lines.len()
        invariant
            i <= lines.len(),
            bytes@ == concatenated(lines_view(lines@).subrange(0, i as int)),
        decreases lines.len() - i,
    {
        let ghost head = bytes@;
        let ghost next = lines_view(lines@).subrange(0, i as int + 1);
        proof {
            assert(next.drop_last() =~= lines_view(lines@).subrange(0, i as int));
            assert(next.last() == lines@[i as int]@);
        }
        bytes.extend_from_slice(lines[i].as_slice());
        assert(bytes@ =~= head + lines@[i as int]@);
        i += 1;
    }
    assert(lines_view(lines@).subrange(0, lines.len() as int) =~= lines_view(lines@));
    bytes
}

/// Writes the records of the snapshot as a CSV document: a header that
/// names every column, then one line for each record, in their order.
///
/// A document always comes out: every record of the table has a line.
pub fn write_vec_to_csv(companies: &Vec<Company>) -> (bytes: Vec<u8>)
    ensures
        bytes@ == exported(companies.deep_view()),
{
    let rows = transform_rows(companies);
    let ghost records = table(rows.deep_view());
    let mut lines: Vec<Vec<u8>> = Vec::new();
    if let Some(line) = encode_record(&header_row()) {
        lines.push(line);
    }
    let mut i: usize = 0;
    while i < rows.len()
        invariant
            i <= rows.len(),
            lines.len() == i + 1,
            records == table(rows.deep_view()),
            forall|j: int|
                0 <= j < lines.len() ==> (#[trigger] lines@[j])@ == csv_record_bytes(records[j]),
        decreases rows.len() - i,
    {
        if let Some(line) = encode_record(&rows[i].fields()) {
            assert(line@ == csv_record_bytes(records[i as int + 1]));
            lines.push(line);
        }
        i += 1;
    }
    assert(lines_view(lines@) =~= Seq::new(
        records.len(),
        |i: int| csv_record_bytes(records[i]),
    ));
    assemble(&lines)
}

/// The table of some rows has the header and one record for each row, and
/// every record in it has the same number of fields.
pub proof fn lemma_table_is_rectangular(rows: Seq<FlatRowView>)
    ensures
        table(rows).len() == rows.len() + 1,
        table(rows)[0] == header(),
        forall|i: int| 0 <= i < table(rows).len() ==> (#[trigger] table(rows)[i]).len() == COLUMNS,
        forall|i: int| 0 <= i < rows.len() ==> table(rows)[i + 1] == (#[trigger] rows[i]).fields(),
{
}

/// The document of a table has the line of the header, then the line of
/// each row, in the order of the rows.
pub proof fn lemma_document_is_header_then_rows(rows: Seq<FlatRowView>)
    ensures
        rows.len() == 0 ==> csv_document(table(rows)) == csv_record_bytes(header()),
        rows.len() > 0 ==> csv_document(table(rows)) == csv_document(table(rows.drop_last()))
            + csv_record_bytes(rows.last().fields()),
{
    let records = table(rows);
    let lines = Seq::new(records.len(), |i: int| csv_record_bytes(records[i]));
    if rows.len() == 0 {
        assert(lines.drop_last() =~= Seq::<Seq<u8>>::empty());
        assert(concatenated(lines.drop_last()) =~= Seq::<u8>::empty());
        assert(lines.last() == csv_record_bytes(header()));
        assert(concatenated(lines) =~= csv_record_bytes(header()));
    } else {
        let shorter = table(rows.drop_last());
        let shorter_lines = Seq::new(shorter.len(), |i: int| csv_record_bytes(shorter[i]));
        assert(lines.drop_last() =~= shorter_lines);
        assert(lines.last() == csv_record_bytes(rows.last().fields()));
    }
}

} // verus!
