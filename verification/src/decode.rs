//! From a JSON document to a record.
//!
//! A member that is missing or `null` is unknown. A member that is there
//! must have the type the record gives it; members the record does not name
//! are passed over.

use crate::calendar::{date_from_text, date_of_numbers, CalendarDate};
use crate::json::Json;
use crate::record::{
    Address, AddressView, Company, CompanyView, Data, DataView, Identification,
    IdentificationView, Links, LinksView,
};
use vstd::prelude::*;

verus! {

/// Why a line is not a record.
#[derive(Clone, Copy, Debug, PartialEq, Eq, Structural)]
pub enum ParseError {
    /// The line is not one JSON document.
    Malformed,
    /// The document is an object without a member `company_number`.
    MissingCompanyNumber,
    /// The document, or a member the record names, has another type than
    /// the record gives it.
    TypeMismatch,
}

/// The text of an optional member.
pub open spec fn optional_text(parent: Json, key: Seq<char>) -> Result<
    Option<Seq<char>>,
    ParseError,
> {
    match parent.field(key) {
        None => Ok(None),
        Some(Json::Null) => Ok(None),
        Some(Json::Text(text)) => Ok(Some(text@)),
        Some(_) => Err(ParseError::TypeMismatch),
    }
}

/// Whether every item of a list is a text.
pub open spec fn all_text(items: Seq<Json>) -> bool {
    forall|i: int| 0 <= i < items.len() ==> items[i] is Text
}

/// The texts of a list of texts, in order.
pub open spec fn texts_of(items: Seq<Json>) -> Seq<Seq<char>> {
    Seq::new(items.len(), |i: int| items[i]->Text_0@)
}

/// The texts of an optional member that is a list of texts.
pub open spec fn optional_text_list(parent: Json, key: Seq<char>) -> Result<
    Option<Seq<Seq<char>>>,
    ParseError,
> {
    match parent.field(key) {
        None => Ok(None),
        Some(Json::Null) => Ok(None),
        Some(Json::Array(items)) => if all_text(items@) {
            Ok(Some(texts_of(items@)))
        } else {
            Err(ParseError::TypeMismatch)
        },
        Some(_) => Err(ParseError::TypeMismatch),
    }
}

/// The date of an optional member that is the text of a date.
pub open spec fn optional_date(parent: Json, key: Seq<char>) -> Result<
    Option<CalendarDate>,
    ParseError,
> {
    match parent.field(key) {
        None => Ok(None),
        Some(Json::Null) => Ok(None),
        Some(Json::Text(text)) => match date_of_numbers(date_from_text(text@)) {
            Some(date) => Ok(Some(date)),
            None => Err(ParseError::TypeMismatch),
        },
        Some(_) => Err(ParseError::TypeMismatch),
    }
}

/// The address that a document holds.
pub open spec fn address_of(json: Json) -> Result<AddressView, ParseError> {
    let address_line_1 = optional_text(json, "address_line_1"@);
    let address_line_2 = optional_text(json, "address_line_2"@);
    let country = optional_text(json, "country"@);
    let locality = optional_text(json, "locality"@);
    let postal_code = optional_text(json, "postal_code"@);
    let premises = optional_text(json, "premises"@);
    if json is Object && address_line_1 is Ok && address_line_2 is Ok && country is Ok
        && locality is Ok && postal_code is Ok && premises is Ok {
        Ok(
            AddressView {
                address_line_1: address_line_1->Ok_0,
                address_line_2: address_line_2->Ok_0,
                country: country->Ok_0,
                locality: locality->Ok_0,
                postal_code: postal_code->Ok_0,
                premises: premises->Ok_0,
            },
        )
    } else {
        Err(ParseError::TypeMismatch)
    }
}

/// The identification that a document holds.
pub open spec fn identification_of(json: Json) -> Result<IdentificationView, ParseError> {
    let country_registered = optional_text(json, "country_registered"@);
    let legal_authority = optional_text(json, "legal_authority"@);
    let legal_form = optional_text(json, "legal_form"@);
    let place_registered = optional_text(json, "place_registered"@);
    let registration_number = optional_text(json, "registration_number"@);
    if json is Object && country_registered is Ok && legal_authority is Ok && legal_form is Ok
        && place_registered is Ok && registration_number is Ok {
        Ok(
            IdentificationView {
                country_registered: country_registered->Ok_0,
                legal_authority: legal_authority->Ok_0,
                legal_form: legal_form->Ok_0,
                place_registered: place_registered->Ok_0,
                registration_number: registration_number->Ok_0,
            },
        )
    } else {
        Err(ParseError::TypeMismatch)
    }
}

/// The links that a document holds.
pub open spec fn links_of(json: Json) -> Result<LinksView, ParseError> {
    let self_ = optional_text(json, "self"@);
    if json is Object && self_ is Ok {
        Ok(LinksView { self_: self_->Ok_0 })
    } else {
        Err(ParseError::TypeMismatch)
    }
}

/// The address of an optional member.
pub open spec fn optional_address(parent: Json, key: Seq<char>) -> Result<
    Option<AddressView>,
    ParseError,
> {
    match parent.field(key) {
        None => Ok(None),
        Some(Json::Null) => Ok(None),
        Some(json) => match address_of(json) {
            Ok(address) => Ok(Some(address)),
            Err(error) => Err(error),
        },
    }
}

/// The identification of an optional member.
pub open spec fn optional_identification(parent: Json, key: Seq<char>) -> Result<
    Option<IdentificationView>,
    ParseError,
> {
    match parent.field(key) {
        None => Ok(None),
        Some(Json::Null) => Ok(None),
        Some(json) => match identification_of(json) {
            Ok(identification) => Ok(Some(identification)),
            Err(error) => Err(error),
        },
    }
}

/// The links of an optional member.
pub open spec fn optional_links(parent: Json, key: Seq<char>) -> Result<
    Option<LinksView>,
    ParseError,
> {
    match parent.field(key) {
        None => Ok(None),
        Some(Json::Null) => Ok(None),
        Some(json) => match links_of(json) {
            Ok(links) => Ok(Some(links)),
            Err(error) => Err(error),
        },
    }
}

/// The data that a document holds.
pub open spec fn data_of(json: Json) -> Result<DataView, ParseError> {
    let address = optional_address(json, "address"@);
    let etag = optional_text(json, "etag"@);
    let identification = optional_identification(json, "identification"@);
    let kind = optional_text(json, "kind"@);
    let links = optional_links(json, "links"@);
    let name = optional_text(json, "name"@);
    let natures_of_control = optional_text_list(json, "natures_of_control"@);
    let notified_on = optional_date(json, "notified_on"@);
    if json is Object && address is Ok && etag is Ok && identification is Ok && kind is Ok
        && links is Ok && name is Ok && natures_of_control is Ok && notified_on is Ok {
        Ok(
            DataView {
                address: address->Ok_0,
                etag: etag->Ok_0,
                identification: identification->Ok_0,
                kind: kind->Ok_0,
                links: links->Ok_0,
                name: name->Ok_0,
                natures_of_control: natures_of_control->Ok_0,
                notified_on: notified_on->Ok_0,
            },
        )
    } else {
        Err(ParseError::TypeMismatch)
    }
}

/// The data of a company: what the member `data` holds, and nothing known
/// where it is missing or `null`.
pub open spec fn company_data(parent: Json) -> Result<DataView, ParseError> {
    match parent.field("data"@) {
        None => Ok(DataView::unknown()),
        Some(Json::Null) => Ok(DataView::unknown()),
        Some(json) => data_of(json),
    }
}

/// The record that a document holds.
///
/// The document must be an object with a text as its `company_number`.
pub open spec fn company_of(json: Json) -> Result<CompanyView, ParseError> {
    if !(json is Object) {
        Err(ParseError::TypeMismatch)
    } else {
        match json.field("company_number"@) {
            None => Err(ParseError::MissingCompanyNumber),
            Some(Json::Text(number)) => match company_data(json) {
                Ok(data) => Ok(CompanyView { company_number: number@, data }),
                Err(error) => Err(error),
            },
            Some(_) => Err(ParseError::TypeMismatch),
        }
    }
}

/// Reads an optional member that is a text.
fn read_optional_text(parent: &Json, key: &str) -> (r: Result<Option<String>, ParseError>)
    ensures
        match r {
            Ok(text) => optional_text(*parent, key@) == Ok::<Option<Seq<char>>, ParseError>(
                text.deep_view(),
            ),
            Err(error) => optional_text(*parent, key@) == Err::<Option<Seq<char>>, ParseError>(
                error,
            ),
        },
{
    match parent.get(key) {
        None => Ok(None),
        Some(Json::Null) => Ok(None),
        Some(Json::Text(text)) => Ok(Some(text.clone())),
        Some(_) => Err(ParseError::TypeMismatch),
    }
}

/// Copies the texts of a list, if all its items are texts.
fn read_texts(items: &Vec<Json>) -> (r: Option<Vec<String>>)
    ensures
        r is Some <==> all_text(items@),
        r matches Some(texts) ==> texts.deep_view() == texts_of(items@),
{
    let mut texts: Vec<String> = Vec::new();
    let mut i: usize = 0;
    while i < items.len()
        invariant
            i <= items.len(),
            texts.len() == i,
            forall|j: int| 0 <= j < i ==> items@[j] is Text,
            forall|j: int| 0 <= j < i ==> #[trigger] texts@[j]@ == items@[j]->Text_0@,
        decreases items.len() - i,
    {
        match &items[i] {
            Json::Text(text) => {
                texts.push(text.clone());
            },
            _ => {
                return None;
            },
        }
        i += 1;
    }
    assert(texts.deep_view() =~= texts_of(items@));
    Some(texts)
}

/// Reads an optional member that is a list of texts.
fn read_optional_text_list(parent: &Json, key: &str) -> (r: Result<
    Option<Vec<String>>,
    ParseError,
>)
    ensures
        match r {
            Ok(texts) => optional_text_list(*parent, key@) == Ok::<
                Option<Seq<Seq<char>>>,
                ParseError,
            >(texts.deep_view()),
            Err(error) => optional_text_list(*parent, key@) == Err::<
                Option<Seq<Seq<char>>>,
                ParseError,
            >(error),
        },
{
    match parent.get(key) {
        None => Ok(None),
        Some(Json::Null) => Ok(None),
        Some(Json::Array(items)) => match read_texts(items) {
            Some(texts) => Ok(Some(texts)),
            None => Err(ParseError::TypeMismatch),
        },
        Some(_) => Err(ParseError::TypeMismatch),
    }
}

/// Reads an optional member that is the text of a date.
fn read_optional_date(parent: &Json, key: &str) -> (r: Result<Option<CalendarDate>, ParseError>)
    ensures
        r == optional_date(*parent, key@),
{
    match parent.get(key) {
        None => Ok(None),
        Some(Json::Null) => Ok(None),
        Some(Json::Text(text)) => match CalendarDate::parse(text.as_str()) {
            Some(date) => Ok(Some(date)),
            None => Err(ParseError::TypeMismatch),
        },
        Some(_) => Err(ParseError::TypeMismatch),
    }
}

impl Address {
    /// Reads an address from a document.
    ///
    /// The document must be an object; each part of the address is the text
    /// of the member of its name, and unknown where that member is missing
    /// or `null`.
    pub fn from_json(json: &Json) -> (r: Result<Address, ParseError>)
        ensures
            match r {
                Ok(address) => address_of(*json) == Ok::<AddressView, ParseError>(address@),
                Err(error) => address_of(*json) == Err::<AddressView, ParseError>(error),
            },
    {
        match json {
            Json::Object(_) => {},
            _ => {
                return Err(ParseError::TypeMismatch);
            },
        }
        let address_line_1 = read_optional_text(json, "address_line_1")?;
        let address_line_2 = read_optional_text(json, "address_line_2")?;
        let country = read_optional_text(json, "country")?;
        let locality = read_optional_text(json, "locality")?;
        let postal_code = read_optional_text(json, "postal_code")?;
        let premises = read_optional_text(json, "premises")?;
        Ok(Address { address_line_1, address_line_2, country, locality, postal_code, premises })
    }
}

impl Identification {
    /// Reads an identification from a document.
    ///
    /// The document must be an object; each part is the text of the member
    /// of its name, and unknown where that member is missing or `null`.
    pub fn from_json(json: &Json) -> (r: Result<Identification, ParseError>)
        ensures
            match r {
                Ok(identification) => identification_of(*json) == Ok::<
                    IdentificationView,
                    ParseError,
                >(identification@),
                Err(error) => identification_of(*json) == Err::<IdentificationView, ParseError>(
                    error,
                ),
            },
    {
        match json {
            Json::Object(_) => {},
            _ => {
                return Err(ParseError::TypeMismatch);
            },
        }
        let country_registered = read_optional_text(json, "country_registered")?;
        let legal_authority = read_optional_text(json, "legal_authority")?;
        let legal_form = read_optional_text(json, "legal_form")?;
        let place_registered = read_optional_text(json, "place_registered")?;
        let registration_number = read_optional_text(json, "registration_number")?;
        Ok(
            Identification {
                country_registered,
                legal_authority,
                legal_form,
                place_registered,
                registration_number,
            },
        )
    }
}

impl Links {
    /// Reads links from a document, which must be an object.
    pub fn from_json(json: &Json) -> (r: Result<Links, ParseError>)
        ensures
            match r {
                Ok(links) => links_of(*json) == Ok::<LinksView, ParseError>(links@),
                Err(error) => links_of(*json) == Err::<LinksView, ParseError>(error),
            },
    {
        match json {
            Json::Object(_) => {},
            _ => {
                return Err(ParseError::TypeMismatch);
            },
        }
        let self_ = read_optional_text(json, "self")?;
        Ok(Links { self_ })
    }
}

/// Reads an optional member that is an address.
fn read_optional_address(parent: &Json, key: &str) -> (r: Result<Option<Address>, ParseError>)
    ensures
        match r {
            Ok(address) => optional_address(*parent, key@) == Ok::<
                Option<AddressView>,
                ParseError,
            >(address.deep_view()),
            Err(error) => optional_address(*parent, key@) == Err::<
                Option<AddressView>,
                ParseError,
            >(error),
        },
{
    match parent.get(key) {
        None => Ok(None),
        Some(Json::Null) => Ok(None),
        Some(json) => match Address::from_json(json) {
            Ok(address) => Ok(Some(address)),
            Err(error) => Err(error),
        },
    }
}

/// Reads an optional member that is an identification.
fn read_optional_identification(parent: &Json, key: &str) -> (r: Result<
    Option<Identification>,
    ParseError,
>)
    ensures
        match r {
            Ok(identification) => optional_identification(*parent, key@) == Ok::<
                Option<IdentificationView>,
                ParseError,
            >(identification.deep_view()),
            Err(error) => optional_identification(*parent, key@) == Err::<
                Option<IdentificationView>,
                ParseError,
            >(error),
        },
{
    match parent.get(key) {
        None => Ok(None),
        Some(Json::Null) => Ok(None),
        Some(json) => match Identification::from_json(json) {
            Ok(identification) => Ok(Some(identification)),
            Err(error) => Err(error),
        },
    }
}

/// Reads an optional member that holds links.
fn read_optional_links(parent: &Json, key: &str) -> (r: Result<Option<Links>, ParseError>)
    ensures
        match r {
            Ok(links) => optional_links(*parent, key@) == Ok::<Option<LinksView>, ParseError>(
                links.deep_view(),
            ),
            Err(error) => optional_links(*parent, key@) == Err::<Option<LinksView>, ParseError>(
                error,
            ),
        },
{
    match parent.get(key) {
        None => Ok(None),
        Some(Json::Null) => Ok(None),
        Some(json) => match Links::from_json(json) {
            Ok(links) => Ok(Some(links)),
            Err(error) => Err(error),
        },
    }
}

impl Data {
    /// Reads the data of a company from a document.
    ///
    /// The document must be an object. Each part is read from the member of
    /// its name and is unknown where that member is missing or `null`; the
    /// date of notification must be the text of a day that exists.
    pub fn from_json(json: &Json) -> (r: Result<Data, ParseError>)
        ensures
            match r {
                Ok(data) => data_of(*json) == Ok::<DataView, ParseError>(data@),
                Err(error) => data_of(*json) == Err::<DataView, ParseError>(error),
            },
    {
        match json {
            Json::Object(_) => {},
            _ => {
                return Err(ParseError::TypeMismatch);
            },
        }
        let address = read_optional_address(json, "address")?;
        let etag = read_optional_text(json, "etag")?;
        let identification = read_optional_identification(json, "identification")?;
        let kind = read_optional_text(json, "kind")?;
        let links = read_optional_links(json, "links")?;
        let name = read_optional_text(json, "name")?;
        let natures_of_control = read_optional_text_list(json, "natures_of_control")?;
        let notified_on = read_optional_date(json, "notified_on")?;
        Ok(
            Data {
                address,
                etag,
                identification,
                kind,
                links,
                name,
                natures_of_control,
                notified_on,
            },
        )
    }
}

impl Company {
    /// Reads a record from a document.
    ///
    /// The document must be an object whose `company_number` is a text;
    /// where it has no such member the record is refused as lacking its
    /// number. The member `data` may be missing or `null`: nothing is then
    /// known of the company.
    pub fn from_json(json: &Json) -> (r: Result<Company, ParseError>)
        ensures
            match r {
                Ok(company) => company_of(*json) == Ok::<CompanyView, ParseError>(company@),
                Err(error) => company_of(*json) == Err::<CompanyView, ParseError>(error),
            },
    {
        match json {
            Json::Object(_) => {},
            _ => {
                return Err(ParseError::TypeMismatch);
            },
        }
        let company_number = match json.get("company_number") {
            None => {
                return Err(ParseError::MissingCompanyNumber);
            },
            Some(Json::Text(number)) => number.clone(),
            Some(_) => {
                return Err(ParseError::TypeMismatch);
            },
        };
        let data = match json.get("data") {
            None => Data::unknown(),
            Some(Json::Null) => Data::unknown(),
            Some(inner) => Data::from_json(inner)?,
        };
        Ok(Company { company_number, data })
    }
}

} // verus!
