//! Reading records from the lines of the extracted file.

use crate::decode::{company_of, ParseError};
use crate::json::{json_document, parse};
use crate::record::{Company, CompanyView};
use crate::text::{trim, trimmed};
use vstd::prelude::*;

verus! {

/// The record that a line holds: the line without the white space around
/// it must be one JSON document, and that document a record.
pub open spec fn line_record(line: Seq<char>) -> Result<CompanyView, ParseError> {
    match json_document(trimmed(line)) {
        Some(json) => company_of(json),
        None => Err(ParseError::Malformed),
    }
}

/// A line that is not a record.
#[derive(Clone, Copy, Debug, PartialEq, Eq, Structural)]
pub struct LineError {
    /// The place of the line among the lines read, counted from zero.
    pub line: usize,
    /// What is wrong with it.
    pub error: ParseError,
}

/// Reads the record of one line.
pub fn parse_line(line: &str) -> (r: Result<Company, ParseError>)
    ensures
        match r {
            Ok(company) => line_record(line@) == Ok::<CompanyView, ParseError>(company@),
            Err(error) => line_record(line@) == Err::<CompanyView, ParseError>(error),
        },
{
    match parse(trim(line)) {
        Some(json) => Company::from_json(&json),
        None => Err(ParseError::Malformed),
    }
}

/// Reads the record of the next line and puts it behind the records read so
/// far.
///
/// Where the line holds no record, the records stay as they are and the
/// line is reported with its fault and its place, which is the number of
/// records read before it.
pub fn append_line(records: &mut Vec<Company>, line: &str) -> (r: Result<(), LineError>)
    ensures
        match r {
            Ok(_) => {
                &&& final(records)@.len() == old(records)@.len() + 1
                &&& final(records)@.drop_last() == old(records)@
                &&& line_record(line@) == Ok::<CompanyView, ParseError>(final(records)@.last()@)
            },
            Err(fault) => {
                &&& *final(records) == *old(records)
                &&& fault.line == old(records)@.len()
                &&& line_record(line@) == Err::<CompanyView, ParseError>(fault.error)
            },
        },
{
    match parse_line(line) {
        Ok(company) => {
            let ghost before = records@;
            records.push(company);
            assert(records@.drop_last() =~= before);
            Ok(())
        },
        Err(error) => Err(LineError { line: records.len(), error }),
    }
}

/// Reads the records of all lines, in the order of the lines.
///
/// Every line must hold a record. The first line that does not ends the
/// reading, and is reported with its place and its fault.
pub fn read_json_lines_to_vec(lines: &Vec<String>) -> (r: Result<Vec<Company>, LineError>)
    ensures
        match r {
            Ok(records) => {
                &&& records.len() == lines.len()
                &&& forall|i: int|
                    0 <= i < lines.len() ==> line_record(#[trigger] lines@[i]@) == Ok::<
                        CompanyView,
                        ParseError,
                    >(records@[i]@)
            },
            Err(fault) => {
                &&& fault.line < lines.len()
                &&& line_record(lines@[fault.line as int]@) == Err::<CompanyView, ParseError>(
                    fault.error,
                )
                &&& forall|i: int|
                    0 <= i < fault.line ==> line_record(#[trigger] lines@[i]@) is Ok
            },
        },
{
    let mut records: Vec<Company> = Vec::new();
    let mut i: usize = 0;
    while i < lines.len()
        invariant
            i <= lines.len(),
            records.len() == i,
            forall|j: int|
                0 <= j < i ==> line_record(#[trigger] lines@[j]@) == Ok::<CompanyView, ParseError>(
                    records@[j]@,
                ),
        decreases lines.len() - i,
    {
        let ghost before = records@;
        match append_line(&mut records, lines[i].as_str()) {
            Ok(_) => {
                assert(forall|j: int| 0 <= j < i ==> records@[j] == before[j]) by {
                    assert(records@.drop_last() == before);
                }
            },
            Err(fault) => {
                return Err(fault);
            },
        }
        i += 1;
    }
    Ok(records)
}

} // verus!
