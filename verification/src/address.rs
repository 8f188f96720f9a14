//! The canonical address representation and the coincidence comparator.
//!
//! Two addresses are *coincident* when all nine identity fields agree; the
//! four secondary fields are then compared independently, and every
//! disagreement is recorded as a [`Mismatch`] without disqualifying the pair.

use vstd::prelude::*;

use crate::components::opt_directional_eq;
use crate::components::opt_subaddress_type_eq;
use crate::components::opt_subaddress_type_text;
use crate::components::render_opt_subaddress_type;
use crate::components::status_text;
use crate::components::AddressStatus;
use crate::components::StreetNamePreDirectional;
use crate::components::StreetNamePostType;
use crate::components::SubaddressType;
use crate::text::neq_message;
use crate::text::neq_text;
use crate::text::opt_i64_eq;
use crate::text::opt_int;
use crate::text::opt_int_text;
use crate::text::opt_str_text;
use crate::text::opt_string_eq;
use crate::text::opt_text;
use crate::text::render_opt_i64;
use crate::text::render_opt_string;
use crate::text::int_text;
use crate::text::render_i64;
use crate::components::directional_text;
use crate::components::post_type_text;
use crate::components::subaddress_type_text;

verus! {

/// Mathematical model of a canonical address: integers and character
/// sequences in place of machine integers and owned strings.
pub struct AddressModel {
    pub address_number: int,
    pub address_number_suffix: Option<Seq<char>>,
    pub street_name_pre_directional: Option<StreetNamePreDirectional>,
    pub street_name: Seq<char>,
    pub street_name_post_type: StreetNamePostType,
    pub subaddress_type: Option<SubaddressType>,
    pub subaddress_identifier: Option<Seq<char>>,
    pub floor: Option<int>,
    pub building: Option<Seq<char>>,
    pub zip_code: int,
    pub postal_community: Seq<char>,
    pub state_name: Seq<char>,
    pub status: AddressStatus,
    pub object_id: int,
}

/// A normalized, source-agnostic address record.
///
/// Identity fields (number, suffix, pre-directional, street name, post type,
/// subaddress identifier, zip code, postal community, state) decide whether
/// two records denote the same physical unit; secondary fields (subaddress
/// type, floor, building, status) are only compared once identity is
/// established.
#[derive(Debug)]
pub struct Address {
    pub address_number: i64,
    pub address_number_suffix: Option<String>,
    pub street_name_pre_directional: Option<StreetNamePreDirectional>,
    pub street_name: String,
    pub street_name_post_type: StreetNamePostType,
    pub subaddress_type: Option<SubaddressType>,
    pub subaddress_identifier: Option<String>,
    pub floor: Option<i64>,
    pub building: Option<String>,
    pub zip_code: i64,
    pub postal_community: String,
    pub state_name: String,
    pub status: AddressStatus,
    pub object_id: i64,
}

impl View for Address {
    type V = AddressModel;

    open spec fn view(&self) -> AddressModel {
        AddressModel {
            address_number: self.address_number as int,
            address_number_suffix: opt_text(self.address_number_suffix),
            street_name_pre_directional: self.street_name_pre_directional,
            street_name: self.street_name@,
            street_name_post_type: self.street_name_post_type,
            subaddress_type: self.subaddress_type,
            subaddress_identifier: opt_text(self.subaddress_identifier),
            floor: opt_int(self.floor),
            building: opt_text(self.building),
            zip_code: self.zip_code as int,
            postal_community: self.postal_community@,
            state_name: self.state_name@,
            status: self.status,
            object_id: self.object_id as int,
        }
    }
}

/// Whether two addresses denote the same physical unit: all nine identity
/// fields agree under exact value equality, absent optional fields agreeing
/// with absent ones only.
pub open spec fn coincident_spec(a: AddressModel, b: AddressModel) -> bool {
    &&& a.address_number == b.address_number
    &&& a.address_number_suffix == b.address_number_suffix
    &&& a.street_name_pre_directional == b.street_name_pre_directional
    &&& a.street_name == b.street_name
    &&& a.street_name_post_type == b.street_name_post_type
    &&& a.subaddress_identifier == b.subaddress_identifier
    &&& a.zip_code == b.zip_code
    &&& a.postal_community == b.postal_community
    &&& a.state_name == b.state_name
}

/// A recorded disagreement between two coincident addresses on exactly one
/// secondary attribute; the payload renders the two disagreeing values.
#[derive(Debug)]
pub enum Mismatch {
    SubaddressType(String),
    Floor(String),
    Building(String),
    Status(String),
}

/// Model of a [`Mismatch`]: the same variants over character sequences.
pub enum MismatchModel {
    SubaddressType(Seq<char>),
    Floor(Seq<char>),
    Building(Seq<char>),
    Status(Seq<char>),
}

impl View for Mismatch {
    type V = MismatchModel;

    open spec fn view(&self) -> MismatchModel {
        match self {
            Mismatch::SubaddressType(m) => MismatchModel::SubaddressType(m@),
            Mismatch::Floor(m) => MismatchModel::Floor(m@),
            Mismatch::Building(m) => MismatchModel::Building(m@),
            Mismatch::Status(m) => MismatchModel::Status(m@),
        }
    }
}

/// The mismatch recorded for a disagreement on the subaddress type.
pub open spec fn subaddress_type_mismatch(
    from: Option<SubaddressType>,
    to: Option<SubaddressType>,
) -> MismatchModel {
    MismatchModel::SubaddressType(
        neq_text(opt_subaddress_type_text(from), opt_subaddress_type_text(to)),
    )
}

/// The mismatch recorded for a disagreement on the floor.
pub open spec fn floor_mismatch(from: Option<int>, to: Option<int>) -> MismatchModel {
    MismatchModel::Floor(neq_text(opt_int_text(from), opt_int_text(to)))
}

/// The mismatch recorded for a disagreement on the building.
pub open spec fn building_mismatch(
    from: Option<Seq<char>>,
    to: Option<Seq<char>>,
) -> MismatchModel {
    MismatchModel::Building(neq_text(opt_str_text(from), opt_str_text(to)))
}

/// The mismatch recorded for a disagreement on the status.
pub open spec fn status_mismatch(from: AddressStatus, to: AddressStatus) -> MismatchModel {
    MismatchModel::Status(neq_text(status_text(from), status_text(to)))
}

impl Mismatch {
    /// Records a disagreement on the subaddress type.
    pub fn subaddress_type(from: Option<SubaddressType>, to: Option<SubaddressType>) -> (r: Self)
        ensures
            r@ == subaddress_type_mismatch(from, to),
    {
        let message = neq_message(
            render_opt_subaddress_type(&from),
            render_opt_subaddress_type(&to),
        );
        Self::SubaddressType(message)
    }

    /// Records a disagreement on the floor.
    pub fn floor(from: Option<i64>, to: Option<i64>) -> (r: Self)
        ensures
            r@ == floor_mismatch(opt_int(from), opt_int(to)),
    {
        let message = neq_message(render_opt_i64(&from), render_opt_i64(&to));
        Self::Floor(message)
    }

    /// Records a disagreement on the building.
    pub fn building(from: &Option<String>, to: &Option<String>) -> (r: Self)
        ensures
            r@ == building_mismatch(opt_text(*from), opt_text(*to)),
    {
        let message = neq_message(render_opt_string(from), render_opt_string(to));
        Self::Building(message)
    }

    /// Records a disagreement on the status.
    pub fn status(from: AddressStatus, to: AddressStatus) -> (r: Self)
        ensures
            r@ == status_mismatch(from, to),
    {
        let message = neq_message(
            String::from_str(from.as_text()),
            String::from_str(to.as_text()),
        );
        Self::Status(message)
    }
}

/// The growable list of mismatches recorded while comparing one pair.
pub struct Mismatches {
    pub fields: Vec<Mismatch>,
}

impl View for Mismatches {
    type V = Seq<MismatchModel>;

    open spec fn view(&self) -> Seq<MismatchModel> {
        self.fields@.map_values(|m: Mismatch| m@)
    }
}

impl Mismatches {
    /// Wraps a list of recorded mismatches.
    pub fn new(fields: Vec<Mismatch>) -> (r: Self)
        ensures
            r@ == fields@.map_values(|m: Mismatch| m@),
    {
        Mismatches { fields }
    }
}

/// Model of an [`AddressMatch`]: the coincidence verdict and the recorded
/// mismatches, an absent list modelled as the empty sequence.
pub struct AddressMatchModel {
    pub coincident: bool,
    pub mismatches: Seq<MismatchModel>,
}

/// The outcome of comparing two addresses: whether they are coincident,
/// and, if so, which secondary fields disagree.
pub struct AddressMatch {
    pub coincident: bool,
    pub mismatches: Option<Mismatches>,
}

impl View for AddressMatch {
    type V = AddressMatchModel;

    open spec fn view(&self) -> AddressMatchModel {
        AddressMatchModel {
            coincident: self.coincident,
            mismatches: match self.mismatches {
                Some(ms) => ms@,
                None => Seq::empty(),
            },
        }
    }
}

impl AddressMatch {
    /// Packs a comparison outcome, storing no list when nothing mismatched.
    pub fn new(coincident: bool, fields: Vec<Mismatch>) -> (r: Self)
        ensures
            r@.coincident == coincident,
            r@.mismatches == fields@.map_values(|m: Mismatch| m@),
            r.mismatches is Some <==> fields@.len() > 0,
    {
        let mismatches = match fields.len() {
            0 => None,
            _ => Some(Mismatches::new(fields)),
        };
        proof {
            if fields@.len() == 0 {
                assert(fields@.map_values(|m: Mismatch| m@) =~= Seq::<MismatchModel>::empty());
            }
        }
        AddressMatch {
            coincident,
            mismatches,
        }
    }
}

/// The mismatches recorded for a coincident pair: one entry per disagreeing
/// secondary field, in the fixed order subaddress type, floor, building,
/// status.
pub open spec fn mismatch_list(a: AddressModel, b: AddressModel) -> Seq<MismatchModel> {
    (if a.subaddress_type != b.subaddress_type {
        seq![subaddress_type_mismatch(a.subaddress_type, b.subaddress_type)]
    } else {
        Seq::empty()
    }) + (if a.floor != b.floor {
        seq![floor_mismatch(a.floor, b.floor)]
    } else {
        Seq::empty()
    }) + (if a.building != b.building {
        seq![building_mismatch(a.building, b.building)]
    } else {
        Seq::empty()
    }) + (if a.status != b.status {
        seq![status_mismatch(a.status, b.status)]
    } else {
        Seq::empty()
    })
}

/// The mismatches reported for a pair: those of the secondary fields when
/// the pair is coincident, and none at all otherwise.
pub open spec fn mismatches_spec(a: AddressModel, b: AddressModel) -> Seq<MismatchModel> {
    if coincident_spec(a, b) {
        mismatch_list(a, b)
    } else {
        Seq::empty()
    }
}

impl Address {
    /// Decides whether `self` and `other` denote the same physical unit,
    /// and, when they do, records every secondary field on which the two
    /// records disagree.
    pub fn coincident(&self, other: &Address) -> (r: AddressMatch)
        ensures
            r@.coincident == coincident_spec(self@, other@),
            r@.mismatches == mismatches_spec(self@, other@),
            r.mismatches is Some <==> mismatches_spec(self@, other@).len() > 0,
    {
        let mut coincident = false;
        let mut mismatches: Vec<Mismatch> = Vec::new();
        if self.address_number == other.address_number
            && opt_string_eq(&self.address_number_suffix, &other.address_number_suffix)
            && opt_directional_eq(
                &self.street_name_pre_directional,
                &other.street_name_pre_directional,
            )
            && self.street_name == other.street_name
            && self.street_name_post_type == other.street_name_post_type
            && opt_string_eq(&self.subaddress_identifier, &other.subaddress_identifier)
            && self.zip_code == other.zip_code
            && self.postal_community == other.postal_community
            && self.state_name == other.state_name
        {
            coincident = true;
            if !opt_subaddress_type_eq(&self.subaddress_type, &other.subaddress_type) {
                mismatches.push(Mismatch::subaddress_type(
                    self.subaddress_type,
                    other.subaddress_type,
                ));
            }
            if !opt_i64_eq(&self.floor, &other.floor) {
                mismatches.push(Mismatch::floor(self.floor, other.floor));
            }
            if !opt_string_eq(&self.building, &other.building) {
                mismatches.push(Mismatch::building(&self.building, &other.building));
            }
            if self.status != other.status {
                mismatches.push(Mismatch::status(self.status, other.status));
            }
            proof {
                assert(mismatches@.map_values(|m: Mismatch| m@) =~= mismatch_list(
                    self@,
                    other@,
                ));
            }
        } else {
            proof {
                assert(mismatches@.map_values(|m: Mismatch| m@) =~= Seq::<
                    MismatchModel,
                >::empty());
            }
        }
        AddressMatch::new(coincident, mismatches)
    }
}

/// The number part of an address label: the house number, followed by its
/// suffix when one is present.
pub open spec fn number_text_of(a: AddressModel) -> Seq<char> {
    match a.address_number_suffix {
        Some(sfx) => int_text(a.address_number) + " "@ + sfx,
        None => int_text(a.address_number),
    }
}

/// The street part of an address label: pre-directional when present,
/// street name and post type, space-separated.
pub open spec fn street_text_of(a: AddressModel) -> Seq<char> {
    match a.street_name_pre_directional {
        Some(d) => directional_text(d) + " "@ + a.street_name + " "@ + post_type_text(
            a.street_name_post_type,
        ),
        None => a.street_name + " "@ + post_type_text(a.street_name_post_type),
    }
}

/// The trailing subaddress part of an address label, including its leading
/// separator; empty when the address has no subaddress fields.
pub open spec fn subaddress_text_of(a: AddressModel) -> Seq<char> {
    match (a.subaddress_identifier, a.subaddress_type) {
        (Some(id), Some(t)) => " "@ + subaddress_type_text(t) + " "@ + id,
        (Some(id), None) => " #"@ + id,
        (None, Some(t)) => " "@ + subaddress_type_text(t),
        (None, None) => Seq::empty(),
    }
}

/// The human-readable label of an address: number part, street part, and
/// the subaddress part when one exists.
pub open spec fn label_spec(a: AddressModel) -> Seq<char> {
    number_text_of(a) + " "@ + street_text_of(a) + subaddress_text_of(a)
}

impl Address {
    /// Reconstructs a single human-readable address string from the
    /// structured fields, for reporting.
    #[verifier::rlimit(30)]
    pub fn label(&self) -> (r: String)
        ensures
            r@ == label_spec(self@),
    {
        let mut s = render_i64(self.address_number);
        match &self.address_number_suffix {
            Some(suffix) => {
                s.append(" ");
                s.append(suffix.as_str());
            },
            None => {},
        }
        proof {
            assert(s@ =~= number_text_of(self@));
        }
        s.append(" ");
        match &self.street_name_pre_directional {
            Some(d) => {
                s.append(d.as_text());
                s.append(" ");
            },
            None => {},
        }
        s.append(self.street_name.as_str());
        s.append(" ");
        s.append(self.street_name_post_type.as_text());
        proof {
            assert(s@ =~= number_text_of(self@) + " "@ + street_text_of(self@));
        }
        match (&self.subaddress_identifier, &self.subaddress_type) {
            (Some(id), Some(t)) => {
                s.append(" ");
                s.append(t.as_text());
                s.append(" ");
                s.append(id.as_str());
            },
            (Some(id), None) => {
                s.append(" #");
                s.append(id.as_str());
            },
            (None, Some(t)) => {
                s.append(" ");
                s.append(t.as_text());
            },
            (None, None) => {},
        }
        proof {
            assert(s@ =~= label_spec(self@));
        }
        s
    }
}

} // verus!
