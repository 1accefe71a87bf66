//! Records as rows of a table.
//!
//! A row has one column for each thing a record can say of a company, all
//! of them text. What the record leaves unknown is written as [`UNKNOWN`],
//! whether the value itself is missing or the part of the record that would
//! hold it.

use crate::record::{Company, CompanyView};
use crate::text::{join, joined};
use vstd::prelude::*;
use vstd::string::*;

verus! {

/// What a column holds where the record leaves its value unknown.
pub const UNKNOWN: &'static str = "N/A";

/// What stands between two natures of control in their column.
pub const LIST_SEPARATOR: &'static str = "|";

/// How many columns a row has.
pub const COLUMNS: usize = 18;

/// A record as a row of text columns.
#[derive(Clone, Debug, PartialEq, Eq)]
pub struct FlatRow {
    pub company_number: String,
    pub etag: String,
    pub kind: String,
    pub name: String,
    pub notified_on: String,
    pub address_line_1: String,
    pub address_line_2: String,
    pub country: String,
    pub locality: String,
    pub postal_code: String,
    pub premises: String,
    pub country_registered: String,
    pub legal_authority: String,
    pub legal_form: String,
    pub place_registered: String,
    pub registration_number: String,
    pub link_self: String,
    pub natures_of_control: String,
}

/// A [`FlatRow`] as a mathematical value.
pub struct FlatRowView {
    pub company_number: Seq<char>,
    pub etag: Seq<char>,
    pub kind: Seq<char>,
    pub name: Seq<char>,
    pub notified_on: Seq<char>,
    pub address_line_1: Seq<char>,
    pub address_line_2: Seq<char>,
    pub country: Seq<char>,
    pub locality: Seq<char>,
    pub postal_code: Seq<char>,
    pub premises: Seq<char>,
    pub country_registered: Seq<char>,
    pub legal_authority: Seq<char>,
    pub legal_form: Seq<char>,
    pub place_registered: Seq<char>,
    pub registration_number: Seq<char>,
    pub link_self: Seq<char>,
    pub natures_of_control: Seq<char>,
}

impl View for FlatRow {
    type V = FlatRowView;

    open spec fn view(&self) -> FlatRowView {
        FlatRowView {
            company_number: self.company_number@,
            etag: self.etag@,
            kind: self.kind@,
            name: self.name@,
            notified_on: self.notified_on@,
            address_line_1: self.address_line_1@,
            address_line_2: self.address_line_2@,
            country: self.country@,
            locality: self.locality@,
            postal_code: self.postal_code@,
            premises: self.premises@,
            country_registered: self.country_registered@,
            legal_authority: self.legal_authority@,
            legal_form: self.legal_form@,
            place_registered: self.place_registered@,
            registration_number: self.registration_number@,
            link_self: self.link_self@,
            natures_of_control: self.natures_of_control@,
        }
    }
}

impl DeepView for FlatRow {
    type V = FlatRowView;

    open spec fn deep_view(&self) -> FlatRowView {
        self.view()
    }
}

impl FlatRowView {
    /// The columns of the row, in the order of the table.
    pub open spec fn fields(self) -> Seq<Seq<char>> {
        seq![
            self.company_number,
            self.etag,
            self.kind,
            self.name,
            self.notified_on,
            self.address_line_1,
            self.address_line_2,
            self.country,
            self.locality,
            self.postal_code,
            self.premises,
            self.country_registered,
            self.legal_authority,
            self.legal_form,
            self.place_registered,
            self.registration_number,
            self.link_self,
            self.natures_of_control,
        ]
    }
}

/// The names of the columns, in the order of the table.
pub open spec fn header() -> Seq<Seq<char>> {
    seq![
        "company_number"@,
        "etag"@,
        "kind"@,
        "name"@,
        "notified_on"@,
        "address_line_1"@,
        "address_line_2"@,
        "country"@,
        "locality"@,
        "postal_code"@,
        "premises"@,
        "country_registered"@,
        "legal_authority"@,
        "legal_form"@,
        "place_registered"@,
        "registration_number"@,
        "link_self"@,
        "natures_of_control"@,
    ]
}

/// The text of a column whose value may be unknown.
pub open spec fn or_unknown(text: Option<Seq<char>>) -> Seq<char> {
    match text {
        Some(known) => known,
        None => UNKNOWN@,
    }
}

/// The row of a record.
///
/// The natures of control are joined with [`LIST_SEPARATOR`], and the date
/// of notification is written as ISO 8601 does.
pub open spec fn flat_row(company: CompanyView) -> FlatRowView {
    FlatRowView {
        company_number: company.company_number,
        etag: or_unknown(company.data.etag),
        kind: or_unknown(company.data.kind),
        name: or_unknown(company.data.name),
        notified_on: match company.data.notified_on {
            Some(date) => date.iso_text(),
            None => UNKNOWN@,
        },
        address_line_1: match company.data.address {
            Some(address) => or_unknown(address.address_line_1),
            None => UNKNOWN@,
        },
        address_line_2: match company.data.address {
            Some(address) => or_unknown(address.address_line_2),
            None => UNKNOWN@,
        },
        country: match company.data.address {
            Some(address) => or_unknown(address.country),
            None => UNKNOWN@,
        },
        locality: match company.data.address {
            Some(address) => or_unknown(address.locality),
            None => UNKNOWN@,
        },
        postal_code: match company.data.address {
            Some(address) => or_unknown(address.postal_code),
            None => UNKNOWN@,
        },
        premises: match company.data.address {
            Some(address) => or_unknown(address.premises),
            None => UNKNOWN@,
        },
        country_registered: match company.data.identification {
            Some(identification) => or_unknown(identification.country_registered),
            None => UNKNOWN@,
        },
        legal_authority: match company.data.identification {
            Some(identification) => or_unknown(identification.legal_authority),
            None => UNKNOWN@,
        },
        legal_form: match company.data.identification {
            Some(identification) => or_unknown(identification.legal_form),
            None => UNKNOWN@,
        },
        place_registered: match company.data.identification {
            Some(identification) => or_unknown(identification.place_registered),
            None => UNKNOWN@,
        },
        registration_number: match company.data.identification {
            Some(identification) => or_unknown(identification.registration_number),
            None => UNKNOWN@,
        },
        link_self: match company.data.links {
            Some(links) => or_unknown(links.self_),
            None => UNKNOWN@,
        },
        natures_of_control: match company.data.natures_of_control {
            Some(natures) => joined(natures, LIST_SEPARATOR@),
            None => UNKNOWN@,
        },
    }
}

/// The rows of the records, in their order.
pub open spec fn flat_rows(companies: Seq<CompanyView>) -> Seq<FlatRowView> {
    Seq::new(companies.len(), |i: int| flat_row(companies[i]))
}

/// The text that stands for an unknown value.
fn unknown() -> (text: String)
    ensures
        text@ == UNKNOWN@,
{
    String::from_str(UNKNOWN)
}

/// The text of a column whose value may be unknown.
fn text_or_unknown(text: &Option<String>) -> (column: String)
    ensures
        column@ == or_unknown(text.deep_view()),
{
    match text {
        Some(known) => known.clone(),
        None => unknown(),
    }
}

/// Lays a record out as a row.
pub fn flatten(company: &Company) -> (row: FlatRow)
    ensures
        row@ == flat_row(company@),
{
    let company_number = company.company_number.clone();
    let etag = text_or_unknown(&company.data.etag);
    let kind = text_or_unknown(&company.data.kind);
    let name = text_or_unknown(&company.data.name);
    let notified_on = match &company.data.notified_on {
        Some(date) => date.to_iso_string(),
        None => unknown(),
    };
    let address_line_1 = match &company.data.address {
        Some(address) => text_or_unknown(&address.address_line_1),
        None => unknown(),
    };
    let address_line_2 = match &company.data.address {
        Some(address) => text_or_unknown(&address.address_line_2),
        None => unknown(),
    };
    let country = match &company.data.address {
        Some(address) => text_or_unknown(&address.country),
        None => unknown(),
    };
    let locality = match &company.data.address {
        Some(address) => text_or_unknown(&address.locality),
        None => unknown(),
    };
    let postal_code = match &company.data.address {
        Some(address) => text_or_unknown(&address.postal_code),
        None => unknown(),
    };
    let premises = match &company.data.address {
        Some(address) => text_or_unknown(&address.premises),
        None => unknown(),
    };
    let country_registered = match &company.data.identification {
        Some(identification) => text_or_unknown(&identification.country_registered),
        None => unknown(),
    };
    let legal_authority = match &company.data.identification {
        Some(identification) => text_or_unknown(&identification.legal_authority),
        None => unknown(),
    };
    let legal_form = match &company.data.identification {
        Some(identification) => text_or_unknown(&identification.legal_form),
        None => unknown(),
    };
    let place_registered = match &company.data.identification {
        Some(identification) => text_or_unknown(&identification.place_registered),
        None => unknown(),
    };
    let registration_number = match &company.data.identification {
        Some(identification) => text_or_unknown(&identification.registration_number),
        None => unknown(),
    };
    let link_self = match &company.data.links {
        Some(links) => text_or_unknown(&links.self_),
        None => unknown(),
    };
    let natures_of_control = match &company.data.natures_of_control {
        Some(natures) => join(natures, LIST_SEPARATOR),
        None => unknown(),
    };
    FlatRow {
        company_number,
        etag,
        kind,
        name,
        notified_on,
        address_line_1,
        address_line_2,
        country,
        locality,
        postal_code,
        premises,
        country_registered,
        legal_authority,
        legal_form,
        place_registered,
        registration_number,
        link_self,
        natures_of_control,
    }
}

/// Lays the records out as rows, one for each record and in their order.
pub fn transform_rows(companies: &Vec<Company>) -> (rows: Vec<FlatRow>)
    ensures
        rows.deep_view() == flat_rows(companies.deep_view()),
{
    let mut rows: Vec<FlatRow> = Vec::new();
    let mut i: usize = 0;
    while i < companies.len()
        invariant
            i <= companies.len(),
            rows.len() == i,
            forall|j: int| 0 <= j < i ==> (#[trigger] rows@[j])@ == flat_row(companies@[j]@),
        decreases companies.len() - i,
    {
        rows.push(flatten(&companies[i]));
        i += 1;
    }
    assert(rows.deep_view() =~= flat_rows(companies.deep_view()));
    rows
}

impl FlatRow {
    /// The columns of the row, in the order of the table.
    pub fn fields(&self) -> (fields: Vec<String>)
        ensures
            fields.deep_view() == self@.fields(),
            fields.len() == COLUMNS,
    {
        let mut fields: Vec<String> = Vec::new();
        fields.push(self.company_number.clone());
        fields.push(self.etag.clone());
        fields.push(self.kind.clone());
        fields.push(self.name.clone());
        fields.push(self.notified_on.clone());
        fields.push(self.address_line_1.clone());
        fields.push(self.address_line_2.clone());
        fields.push(self.country.clone());
        fields.push(self.locality.clone());
        fields.push(self.postal_code.clone());
        fields.push(self.premises.clone());
        fields.push(self.country_registered.clone());
        fields.push(self.legal_authority.clone());
        fields.push(self.legal_form.clone());
        fields.push(self.place_registered.clone());
        fields.push(self.registration_number.clone());
        fields.push(self.link_self.clone());
        fields.push(self.natures_of_control.clone());
        assert(fields.deep_view() =~= self@.fields());
        fields
    }
}

/// The names of the columns, in the order of the table.
pub fn header_row() -> (names: Vec<String>)
    ensures
        names.deep_view() == header(),
        names.len() == COLUMNS,
{
    let mut names: Vec<String> = Vec::new();
    names.push(String::from_str("company_number"));
    names.push(String::from_str("etag"));
    names.push(String::from_str("kind"));
    names.push(String::from_str("name"));
    names.push(String::from_str("notified_on"));
    names.push(String::from_str("address_line_1"));
    names.push(String::from_str("address_line_2"));
    names.push(String::from_str("country"));
    names.push(String::from_str("locality"));
    names.push(String::from_str("postal_code"));
    names.push(String::from_str("premises"));
    names.push(String::from_str("country_registered"));
    names.push(String::from_str("legal_authority"));
    names.push(String::from_str("legal_form"));
    names.push(String::from_str("place_registered"));
    names.push(String::from_str("registration_number"));
    names.push(String::from_str("link_self"));
    names.push(String::from_str("natures_of_control"));
    assert(names.deep_view() =~= header());
    names
}

/// What a record leaves unknown is marked in its row: a value that is
/// missing gives [`UNKNOWN`] in its column, and a part that is missing
/// gives it in each of the columns of the part.
pub proof fn lemma_unknown_is_marked(company: CompanyView)
    ensures
        company.data.etag is None ==> flat_row(company).etag == UNKNOWN@,
        company.data.kind is None ==> flat_row(company).kind == UNKNOWN@,
        company.data.name is None ==> flat_row(company).name == UNKNOWN@,
        company.data.notified_on is None ==> flat_row(company).notified_on == UNKNOWN@,
        company.data.natures_of_control is None ==> flat_row(company).natures_of_control
            == UNKNOWN@,
        company.data.address is None ==> {
            &&& flat_row(company).address_line_1 == UNKNOWN@
            &&& flat_row(company).address_line_2 == UNKNOWN@
            &&& flat_row(company).country == UNKNOWN@
            &&& flat_row(company).locality == UNKNOWN@
            &&& flat_row(company).postal_code == UNKNOWN@
            &&& flat_row(company).premises == UNKNOWN@
        },
        company.data.address matches Some(part) ==> {
            &&& part.address_line_1 is None ==> flat_row(company).address_line_1 == UNKNOWN@
            &&& part.address_line_2 is None ==> flat_row(company).address_line_2 == UNKNOWN@
            &&& part.country is None ==> flat_row(company).country == UNKNOWN@
            &&& part.locality is None ==> flat_row(company).locality == UNKNOWN@
            &&& part.postal_code is None ==> flat_row(company).postal_code == UNKNOWN@
            &&& part.premises is None ==> flat_row(company).premises == UNKNOWN@
        },
        company.data.identification is None ==> {
            &&& flat_row(company).country_registered == UNKNOWN@
            &&& flat_row(company).legal_authority == UNKNOWN@
            &&& flat_row(company).legal_form == UNKNOWN@
            &&& flat_row(company).place_registered == UNKNOWN@
            &&& flat_row(company).registration_number == UNKNOWN@
        },
        company.data.identification matches Some(part) ==> {
            &&& part.country_registered is None ==> flat_row(company).country_registered == UNKNOWN@
            &&& part.legal_authority is None ==> flat_row(company).legal_authority == UNKNOWN@
            &&& part.legal_form is None ==> flat_row(company).legal_form == UNKNOWN@
            &&& part.place_registered is None ==> flat_row(company).place_registered == UNKNOWN@
            &&& part.registration_number is None ==> flat_row(
                company,
            ).registration_number == UNKNOWN@
        },
        company.data.links is None ==> flat_row(company).link_self == UNKNOWN@,
        company.data.links matches Some(part) ==> {
            &&& part.self_ is None ==> flat_row(company).link_self == UNKNOWN@
        },
{
}

/// What a record knows stands in its row as it is: the company number
/// always, and each value that is there. The date of notification is
/// written as ISO 8601 does, and the natures of control are joined with
/// [`LIST_SEPARATOR`].
pub proof fn lemma_known_is_kept(company: CompanyView)
    ensures
        flat_row(company).company_number == company.company_number,
        company.data.etag matches Some(text) ==> flat_row(company).etag == text,
        company.data.kind matches Some(text) ==> flat_row(company).kind == text,
        company.data.name matches Some(text) ==> flat_row(company).name == text,
        company.data.notified_on matches Some(date) ==> flat_row(company).notified_on
            == date.iso_text(),
        company.data.natures_of_control matches Some(natures) ==> flat_row(
            company,
        ).natures_of_control == joined(natures, LIST_SEPARATOR@),
        company.data.address matches Some(part) ==> {
            &&& part.address_line_1 matches Some(text) ==> flat_row(company).address_line_1 == text
            &&& part.address_line_2 matches Some(text) ==> flat_row(company).address_line_2 == text
            &&& part.country matches Some(text) ==> flat_row(company).country == text
            &&& part.locality matches Some(text) ==> flat_row(company).locality == text
            &&& part.postal_code matches Some(text) ==> flat_row(company).postal_code == text
            &&& part.premises matches Some(text) ==> flat_row(company).premises == text
        },
        company.data.identification matches Some(part) ==> {
            &&& part.country_registered matches Some(text) ==> flat_row(
                company,
            ).country_registered == text
            &&& part.legal_authority matches Some(text) ==> flat_row(
                company,
            ).legal_authority == text
            &&& part.legal_form matches Some(text) ==> flat_row(company).legal_form == text
            &&& part.place_registered matches Some(text) ==> flat_row(
                company,
            ).place_registered == text
            &&& part.registration_number matches Some(text) ==> flat_row(
                company,
            ).registration_number == text
        },
        company.data.links matches Some(part) ==> {
            &&& part.self_ matches Some(text) ==> flat_row(company).link_self == text
        },
{
}

/// A column that does not hold [`UNKNOWN`] holds a value of the record: the
/// marker never stands in for a value that is there, unless that value is
/// the text of the marker itself.
pub proof fn lemma_marker_means_unknown(company: CompanyView)
    ensures
        flat_row(company).etag != UNKNOWN@ ==> company.data.etag == Some(flat_row(company).etag),
        flat_row(company).kind != UNKNOWN@ ==> company.data.kind == Some(flat_row(company).kind),
        flat_row(company).name != UNKNOWN@ ==> company.data.name == Some(flat_row(company).name),
        flat_row(company).notified_on != UNKNOWN@ ==> company.data.notified_on is Some,
        flat_row(company).natures_of_control != UNKNOWN@ ==> company.data.natures_of_control
            is Some,
        flat_row(company).address_line_1 != UNKNOWN@ ==> {
            &&& company.data.address matches Some(part)
            &&& part.address_line_1 == Some(flat_row(company).address_line_1)
        },
        flat_row(company).address_line_2 != UNKNOWN@ ==> {
            &&& company.data.address matches Some(part)
            &&& part.address_line_2 == Some(flat_row(company).address_line_2)
        },
        flat_row(company).country != UNKNOWN@ ==> {
            &&& company.data.address matches Some(part)
            &&& part.country == Some(flat_row(company).country)
        },
        flat_row(company).locality != UNKNOWN@ ==> {
            &&& company.data.address matches Some(part)
            &&& part.locality == Some(flat_row(company).locality)
        },
        flat_row(company).postal_code != UNKNOWN@ ==> {
            &&& company.data.address matches Some(part)
            &&& part.postal_code == Some(flat_row(company).postal_code)
        },
        flat_row(company).premises != UNKNOWN@ ==> {
            &&& company.data.address matches Some(part)
            &&& part.premises == Some(flat_row(company).premises)
        },
        flat_row(company).country_registered != UNKNOWN@ ==> {
            &&& company.data.identification matches Some(part)
            &&& part.country_registered == Some(flat_row(company).country_registered)
        },
        flat_row(company).legal_authority != UNKNOWN@ ==> {
            &&& company.data.identification matches Some(part)
            &&& part.legal_authority == Some(flat_row(company).legal_authority)
        },
        flat_row(company).legal_form != UNKNOWN@ ==> {
            &&& company.data.identification matches Some(part)
            &&& part.legal_form == Some(flat_row(company).legal_form)
        },
        flat_row(company).place_registered != UNKNOWN@ ==> {
            &&& company.data.identification matches Some(part)
            &&& part.place_registered == Some(flat_row(company).place_registered)
        },
        flat_row(company).registration_number != UNKNOWN@ ==> {
            &&& company.data.identification matches Some(part)
            &&& part.registration_number == Some(flat_row(company).registration_number)
        },
        flat_row(company).link_self != UNKNOWN@ ==> {
            &&& company.data.links matches Some(part)
            &&& part.self_ == Some(flat_row(company).link_self)
        },
{
}

/// Two natures of control stand in their column with the separator between
/// them.
pub proof fn lemma_two_natures_joined(first: Seq<char>, second: Seq<char>)
    ensures
        joined(seq![first, second], LIST_SEPARATOR@) == first + LIST_SEPARATOR@ + second,
{
    let both = seq![first, second];
    assert(both.drop_last() =~= seq![first]);
    assert(joined(both.drop_last(), LIST_SEPARATOR@) == first);
}

/// Every row has the same number of columns, and so has the header: no row
/// can be shorter or longer than another.
pub proof fn lemma_rows_are_as_wide_as_the_header(row: FlatRowView)
    ensures
        row.fields().len() == COLUMNS,
        header().len() == COLUMNS,
{
}

} // verus!
