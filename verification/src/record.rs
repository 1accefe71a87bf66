//! The records of the snapshot: one company per line of the extracted file.
//!
//! A record names a company and may hold details of it. Whatever is not
//! given is unknown, and is kept as `None`; only the company number must be
//! there.

use crate::calendar::CalendarDate;
use vstd::prelude::*;

verus! {

/// A postal address; each part may be unknown.
#[derive(Clone, Debug, PartialEq, Eq)]
pub struct Address {
    pub address_line_1: Option<String>,
    pub address_line_2: Option<String>,
    pub country: Option<String>,
    pub locality: Option<String>,
    pub postal_code: Option<String>,
    pub premises: Option<String>,
}

/// How a legal entity is registered; each part may be unknown.
#[derive(Clone, Debug, PartialEq, Eq)]
pub struct Identification {
    pub country_registered: Option<String>,
    pub legal_authority: Option<String>,
    pub legal_form: Option<String>,
    pub place_registered: Option<String>,
    pub registration_number: Option<String>,
}

/// References to the record itself.
#[derive(Clone, Debug, PartialEq, Eq)]
pub struct Links {
    /// Where the record can be found; the member `self` of the source.
    pub self_: Option<String>,
}

/// What is known of a company.
#[derive(Clone, Debug, PartialEq, Eq)]
pub struct Data {
    pub address: Option<Address>,
    pub etag: Option<String>,
    pub identification: Option<Identification>,
    pub kind: Option<String>,
    pub links: Option<Links>,
    pub name: Option<String>,
    pub natures_of_control: Option<Vec<String>>,
    pub notified_on: Option<CalendarDate>,
}

/// One record of the snapshot.
#[derive(Clone, Debug, PartialEq, Eq)]
pub struct Company {
    pub company_number: String,
    pub data: Data,
}

/// An [`Address`] as a mathematical value.
pub struct AddressView {
    pub address_line_1: Option<Seq<char>>,
    pub address_line_2: Option<Seq<char>>,
    pub country: Option<Seq<char>>,
    pub locality: Option<Seq<char>>,
    pub postal_code: Option<Seq<char>>,
    pub premises: Option<Seq<char>>,
}

/// An [`Identification`] as a mathematical value.
pub struct IdentificationView {
    pub country_registered: Option<Seq<char>>,
    pub legal_authority: Option<Seq<char>>,
    pub legal_form: Option<Seq<char>>,
    pub place_registered: Option<Seq<char>>,
    pub registration_number: Option<Seq<char>>,
}

/// [`Links`] as a mathematical value.
pub struct LinksView {
    pub self_: Option<Seq<char>>,
}

/// [`Data`] as a mathematical value.
pub struct DataView {
    pub address: Option<AddressView>,
    pub etag: Option<Seq<char>>,
    pub identification: Option<IdentificationView>,
    pub kind: Option<Seq<char>>,
    pub links: Option<LinksView>,
    pub name: Option<Seq<char>>,
    pub natures_of_control: Option<Seq<Seq<char>>>,
    pub notified_on: Option<CalendarDate>,
}

/// A [`Company`] as a mathematical value.
pub struct CompanyView {
    pub company_number: Seq<char>,
    pub data: DataView,
}

impl View for Address {
    type V = AddressView;

    open spec fn view(&self) -> AddressView {
        AddressView {
            address_line_1: self.address_line_1.deep_view(),
            address_line_2: self.address_line_2.deep_view(),
            country: self.country.deep_view(),
            locality: self.locality.deep_view(),
            postal_code: self.postal_code.deep_view(),
            premises: self.premises.deep_view(),
        }
    }
}

impl DeepView for Address {
    type V = AddressView;

    open spec fn deep_view(&self) -> AddressView {
        self.view()
    }
}

impl View for Identification {
    type V = IdentificationView;

    open spec fn view(&self) -> IdentificationView {
        IdentificationView {
            country_registered: self.country_registered.deep_view(),
            legal_authority: self.legal_authority.deep_view(),
            legal_form: self.legal_form.deep_view(),
            place_registered: self.place_registered.deep_view(),
            registration_number: self.registration_number.deep_view(),
        }
    }
}

impl DeepView for Identification {
    type V = IdentificationView;

    open spec fn deep_view(&self) -> IdentificationView {
        self.view()
    }
}

impl View for Links {
    type V = LinksView;

    open spec fn view(&self) -> LinksView {
        LinksView { self_: self.self_.deep_view() }
    }
}

impl DeepView for Links {
    type V = LinksView;

    open spec fn deep_view(&self) -> LinksView {
        self.view()
    }
}

impl View for Data {
    type V = DataView;

    open spec fn view(&self) -> DataView {
        DataView {
            address: self.address.deep_view(),
            etag: self.etag.deep_view(),
            identification: self.identification.deep_view(),
            kind: self.kind.deep_view(),
            links: self.links.deep_view(),
            name: self.name.deep_view(),
            natures_of_control: self.natures_of_control.deep_view(),
            notified_on: self.notified_on,
        }
    }
}

impl DeepView for Data {
    type V = DataView;

    open spec fn deep_view(&self) -> DataView {
        self.view()
    }
}

impl View for Company {
    type V = CompanyView;

    open spec fn view(&self) -> CompanyView {
        CompanyView { company_number: self.company_number@, data: self.data@ }
    }
}

impl DeepView for Company {
    type V = CompanyView;

    open spec fn deep_view(&self) -> CompanyView {
        self.view()
    }
}

impl DataView {
    /// The data of a company of which nothing is known.
    pub open spec fn unknown() -> DataView {
        DataView {
            address: None,
            etag: None,
            identification: None,
            kind: None,
            links: None,
            name: None,
            natures_of_control: None,
            notified_on: None,
        }
    }
}

impl Data {
    /// The data of a company of which nothing is known.
    pub fn unknown() -> (data: Data)
        ensures
            data@ == DataView::unknown(),
    {
        Data {
            address: None,
            etag: None,
            identification: None,
            kind: None,
            links: None,
            name: None,
            natures_of_control: None,
            notified_on: None,
        }
    }
}

} // verus!
