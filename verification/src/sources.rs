//! Source-specific address records and their fallible conversion into the
//! canonical [`Address`].
//!
//! A city record always carries every mandatory canonical field, so its
//! conversion is total; a county record may lack the street-name post type,
//! in which case the conversion fails and the record is excluded from
//! comparison rather than defaulted.

use vstd::prelude::*;

use crate::address::Address;
use crate::address::AddressModel;
use crate::components::AddressStatus;
use crate::components::StreetNamePreDirectional;
use crate::components::StreetNamePostType;
use crate::components::SubaddressType;
use crate::text::clone_opt_string;
use crate::text::opt_int;
use crate::text::opt_text;

verus! {

/// An address record as exported by the city GIS, already decoded to the
/// library's component enumerations.
#[derive(Debug)]
pub struct CityAddress {
    pub address_number: i64,
    pub address_number_suffix: Option<String>,
    pub street_name_pre_directional: Option<StreetNamePreDirectional>,
    pub street_name: String,
    pub street_name_post_type: StreetNamePostType,
    pub subaddress_type: Option<SubaddressType>,
    pub subaddress_identifier: Option<String>,
    pub floor: Option<i64>,
    pub building: Option<String>,
    pub zip_code: i64,
    pub postal_community: String,
    pub state_name: String,
    pub status: AddressStatus,
    pub object_id: i64,
}

impl View for CityAddress {
    type V = AddressModel;

    open spec fn view(&self) -> AddressModel {
        AddressModel {
            address_number: self.address_number as int,
            address_number_suffix: opt_text(self.address_number_suffix),
            street_name_pre_directional: self.street_name_pre_directional,
            street_name: self.street_name@,
            street_name_post_type: self.street_name_post_type,
            subaddress_type: self.subaddress_type,
            subaddress_identifier: opt_text(self.subaddress_identifier),
            floor: opt_int(self.floor),
            building: opt_text(self.building),
            zip_code: self.zip_code as int,
            postal_community: self.postal_community@,
            state_name: self.state_name@,
            status: self.status,
            object_id: self.object_id as int,
        }
    }
}

/// A batch of city records.
#[derive(Debug)]
pub struct CityAddresses {
    pub records: Vec<CityAddress>,
}

/// Mathematical model of a county record; the street-name post type is
/// optional here, so a county record need not convert to an address.
pub struct CountyModel {
    pub address_number: int,
    pub address_number_suffix: Option<Seq<char>>,
    pub street_name_pre_directional: Option<StreetNamePreDirectional>,
    pub street_name: Seq<char>,
    pub street_name_post_type: Option<StreetNamePostType>,
    pub subaddress_type: Option<SubaddressType>,
    pub subaddress_identifier: Option<Seq<char>>,
    pub floor: Option<int>,
    pub zip_code: int,
    pub postal_community: Seq<char>,
    pub state_name: Seq<char>,
    pub status: AddressStatus,
    pub object_id: int,
}

/// An address record as exported by the county GIS, already decoded to the
/// library's component enumerations; county exports carry no building
/// field, and may lack a street-name post type.
#[derive(Debug)]
pub struct CountyAddress {
    pub address_number: i64,
    pub address_number_suffix: Option<String>,
    pub street_name_pre_directional: Option<StreetNamePreDirectional>,
    pub street_name: String,
    pub street_name_post_type: Option<StreetNamePostType>,
    pub subaddress_type: Option<SubaddressType>,
    pub subaddress_identifier: Option<String>,
    pub floor: Option<i64>,
    pub zip_code: i64,
    pub postal_community: String,
    pub state_name: String,
    pub status: AddressStatus,
    pub object_id: i64,
}

impl View for CountyAddress {
    type V = CountyModel;

    open spec fn view(&self) -> CountyModel {
        CountyModel {
            address_number: self.address_number as int,
            address_number_suffix: opt_text(self.address_number_suffix),
            street_name_pre_directional: self.street_name_pre_directional,
            street_name: self.street_name@,
            street_name_post_type: self.street_name_post_type,
            subaddress_type: self.subaddress_type,
            subaddress_identifier: opt_text(self.subaddress_identifier),
            floor: opt_int(self.floor),
            zip_code: self.zip_code as int,
            postal_community: self.postal_community@,
            state_name: self.state_name@,
            status: self.status,
            object_id: self.object_id as int,
        }
    }
}

/// A batch of county records.
#[derive(Debug)]
pub struct CountyAddresses {
    pub records: Vec<CountyAddress>,
}

/// The canonical address denoted by a county record, when the record
/// carries the mandatory street-name post type; county records convert
/// with no building field.
pub open spec fn county_to_address_spec(c: CountyModel) -> Option<AddressModel> {
    match c.street_name_post_type {
        Some(post_type) => Some(
            AddressModel {
                address_number: c.address_number,
                address_number_suffix: c.address_number_suffix,
                street_name_pre_directional: c.street_name_pre_directional,
                street_name: c.street_name,
                street_name_post_type: post_type,
                subaddress_type: c.subaddress_type,
                subaddress_identifier: c.subaddress_identifier,
                floor: c.floor,
                building: None,
                zip_code: c.zip_code,
                postal_community: c.postal_community,
                state_name: c.state_name,
                status: c.status,
                object_id: c.object_id,
            },
        ),
        None => None,
    }
}

impl From<CityAddress> for Address {
    /// A city record always converts; every canonical field is present.
    fn from(item: CityAddress) -> (r: Address) {
        Address {
            address_number: item.address_number,
            address_number_suffix: item.address_number_suffix,
            street_name_pre_directional: item.street_name_pre_directional,
            street_name: item.street_name,
            street_name_post_type: item.street_name_post_type,
            subaddress_type: item.subaddress_type,
            subaddress_identifier: item.subaddress_identifier,
            floor: item.floor,
            building: item.building,
            zip_code: item.zip_code,
            postal_community: item.postal_community,
            state_name: item.state_name,
            status: item.status,
            object_id: item.object_id,
        }
    }
}

impl vstd::std_specs::convert::FromSpecImpl<CityAddress> for Address {
    open spec fn obeys_from_spec() -> bool {
        true
    }

    open spec fn from_spec(t: CityAddress) -> Address {
        Address {
            address_number: t.address_number,
            address_number_suffix: t.address_number_suffix,
            street_name_pre_directional: t.street_name_pre_directional,
            street_name: t.street_name,
            street_name_post_type: t.street_name_post_type,
            subaddress_type: t.subaddress_type,
            subaddress_identifier: t.subaddress_identifier,
            floor: t.floor,
            building: t.building,
            zip_code: t.zip_code,
            postal_community: t.postal_community,
            state_name: t.state_name,
            status: t.status,
            object_id: t.object_id,
        }
    }
}

impl TryFrom<CountyAddress> for Address {
    type Error = ();

    /// A county record converts only when its street-name post type is
    /// present; a record lacking it is rejected, never defaulted.
    fn try_from(item: CountyAddress) -> (r: Result<Address, ()>) {
        match item.street_name_post_type {
            Some(post_type) => Ok(
                Address {
                    address_number: item.address_number,
                    address_number_suffix: item.address_number_suffix,
                    street_name_pre_directional: item.street_name_pre_directional,
                    street_name: item.street_name,
                    street_name_post_type: post_type,
                    subaddress_type: item.subaddress_type,
                    subaddress_identifier: item.subaddress_identifier,
                    floor: item.floor,
                    building: None,
                    zip_code: item.zip_code,
                    postal_community: item.postal_community,
                    state_name: item.state_name,
                    status: item.status,
                    object_id: item.object_id,
                },
            ),
            None => Err(()),
        }
    }
}

impl vstd::std_specs::convert::TryFromSpecImpl<CountyAddress> for Address {
    open spec fn obeys_try_from_spec() -> bool {
        true
    }

    open spec fn try_from_spec(t: CountyAddress) -> Result<Address, ()> {
        match t.street_name_post_type {
            Some(post_type) => Ok(
                Address {
                    address_number: t.address_number,
                    address_number_suffix: t.address_number_suffix,
                    street_name_pre_directional: t.street_name_pre_directional,
                    street_name: t.street_name,
                    street_name_post_type: post_type,
                    subaddress_type: t.subaddress_type,
                    subaddress_identifier: t.subaddress_identifier,
                    floor: t.floor,
                    building: None,
                    zip_code: t.zip_code,
                    postal_community: t.postal_community,
                    state_name: t.state_name,
                    status: t.status,
                    object_id: t.object_id,
                },
            ),
            None => Err(()),
        }
    }
}

/// One source record of either schema, as handed to the classifier.
#[derive(Debug)]
pub enum SourceAddress {
    City(CityAddress),
    County(CountyAddress),
}

/// Model of a [`SourceAddress`].
pub enum SourceModel {
    City(AddressModel),
    County(CountyModel),
}

impl View for SourceAddress {
    type V = SourceModel;

    open spec fn view(&self) -> SourceModel {
        match self {
            SourceAddress::City(c) => SourceModel::City(c@),
            SourceAddress::County(c) => SourceModel::County(c@),
        }
    }
}

/// The canonical address denoted by a source record, when every mandatory
/// canonical field is resolvable from it.
pub open spec fn source_to_address_spec(s: SourceModel) -> Option<AddressModel> {
    match s {
        SourceModel::City(m) => Some(m),
        SourceModel::County(c) => county_to_address_spec(c),
    }
}

/// The models of an optional canonical address.
pub open spec fn opt_address_model(r: Option<Address>) -> Option<AddressModel> {
    match r {
        Some(a) => Some(a@),
        None => None,
    }
}

/// Copies a city record into its canonical address.
fn city_to_address(c: &CityAddress) -> (r: Address)
    ensures
        r@ == c@,
{
    Address {
        address_number: c.address_number,
        address_number_suffix: clone_opt_string(&c.address_number_suffix),
        street_name_pre_directional: c.street_name_pre_directional,
        street_name: c.street_name.clone(),
        street_name_post_type: c.street_name_post_type,
        subaddress_type: c.subaddress_type,
        subaddress_identifier: clone_opt_string(&c.subaddress_identifier),
        floor: c.floor,
        building: clone_opt_string(&c.building),
        zip_code: c.zip_code,
        postal_community: c.postal_community.clone(),
        state_name: c.state_name.clone(),
        status: c.status,
        object_id: c.object_id,
    }
}

/// Copies a county record into its canonical address, when the mandatory
/// street-name post type is present.
fn county_to_address(c: &CountyAddress) -> (r: Option<Address>)
    ensures
        opt_address_model(r) == county_to_address_spec(c@),
{
    match c.street_name_post_type {
        Some(post_type) => Some(
            Address {
                address_number: c.address_number,
                address_number_suffix: clone_opt_string(&c.address_number_suffix),
                street_name_pre_directional: c.street_name_pre_directional,
                street_name: c.street_name.clone(),
                street_name_post_type: post_type,
                subaddress_type: c.subaddress_type,
                subaddress_identifier: clone_opt_string(&c.subaddress_identifier),
                floor: c.floor,
                building: None,
                zip_code: c.zip_code,
                postal_community: c.postal_community.clone(),
                state_name: c.state_name.clone(),
                status: c.status,
                object_id: c.object_id,
            },
        ),
        None => None,
    }
}

impl SourceAddress {
    /// Attempts the conversion of this record to a canonical address,
    /// returning nothing when a mandatory field is absent.
    pub fn to_address(&self) -> (r: Option<Address>)
        ensures
            opt_address_model(r) == source_to_address_spec(self@),
    {
        match self {
            SourceAddress::City(c) => Some(city_to_address(c)),
            SourceAddress::County(c) => county_to_address(c),
        }
    }
}

} // verus!
