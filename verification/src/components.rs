//! Closed enumerations for the component fields of a canonical address,
//! together with their rendered text forms.

use vstd::prelude::*;

verus! {

/// Directional prefix of a street name (e.g. the "NW" in "NW 5th St").
#[derive(Clone, Copy, Debug, PartialEq, Eq, Structural)]
pub enum StreetNamePreDirectional {
    North,
    South,
    East,
    West,
    Northeast,
    Northwest,
    Southeast,
    Southwest,
}

/// Trailing type of a street name (e.g. the "Avenue" in "Park Avenue").
#[derive(Clone, Copy, Debug, PartialEq, Eq, Structural)]
pub enum StreetNamePostType {
    Street,
    Avenue,
    Boulevard,
    Circle,
    Court,
    Drive,
    Lane,
    Loop,
    Place,
    Road,
    Terrace,
    Way,
}

/// Type of a subaddress element (e.g. the "Suite" in "Suite 210").
#[derive(Clone, Copy, Debug, PartialEq, Eq, Structural)]
pub enum SubaddressType {
    Apartment,
    Building,
    Floor,
    Room,
    Space,
    Suite,
    Unit,
}

/// Lifecycle status of an address record.
#[derive(Clone, Copy, Debug, PartialEq, Eq, Structural)]
pub enum AddressStatus {
    Active,
    Pending,
    Retired,
}

/// Text form of a pre-directional.
pub open spec fn directional_text(d: StreetNamePreDirectional) -> Seq<char> {
    match d {
        StreetNamePreDirectional::North => "North"@,
        StreetNamePreDirectional::South => "South"@,
        StreetNamePreDirectional::East => "East"@,
        StreetNamePreDirectional::West => "West"@,
        StreetNamePreDirectional::Northeast => "Northeast"@,
        StreetNamePreDirectional::Northwest => "Northwest"@,
        StreetNamePreDirectional::Southeast => "Southeast"@,
        StreetNamePreDirectional::Southwest => "Southwest"@,
    }
}

/// Text form of a street-name post type.
pub open spec fn post_type_text(p: StreetNamePostType) -> Seq<char> {
    match p {
        StreetNamePostType::Street => "Street"@,
        StreetNamePostType::Avenue => "Avenue"@,
        StreetNamePostType::Boulevard => "Boulevard"@,
        StreetNamePostType::Circle => "Circle"@,
        StreetNamePostType::Court => "Court"@,
        StreetNamePostType::Drive => "Drive"@,
        StreetNamePostType::Lane => "Lane"@,
        StreetNamePostType::Loop => "Loop"@,
        StreetNamePostType::Place => "Place"@,
        StreetNamePostType::Road => "Road"@,
        StreetNamePostType::Terrace => "Terrace"@,
        StreetNamePostType::Way => "Way"@,
    }
}

/// Text form of a subaddress type.
pub open spec fn subaddress_type_text(t: SubaddressType) -> Seq<char> {
    match t {
        SubaddressType::Apartment => "Apartment"@,
        SubaddressType::Building => "Building"@,
        SubaddressType::Floor => "Floor"@,
        SubaddressType::Room => "Room"@,
        SubaddressType::Space => "Space"@,
        SubaddressType::Suite => "Suite"@,
        SubaddressType::Unit => "Unit"@,
    }
}

/// Text form of an address status.
pub open spec fn status_text(s: AddressStatus) -> Seq<char> {
    match s {
        AddressStatus::Active => "Active"@,
        AddressStatus::Pending => "Pending"@,
        AddressStatus::Retired => "Retired"@,
    }
}

/// Descriptive text of an optional subaddress type, in constructor notation.
pub open spec fn opt_subaddress_type_text(t: Option<SubaddressType>) -> Seq<char> {
    match t {
        Some(x) => "Some("@ + subaddress_type_text(x) + ")"@,
        None => "None"@,
    }
}

/// Renders an optional subaddress type descriptively.
pub fn render_opt_subaddress_type(t: &Option<SubaddressType>) -> (r: String)
    ensures
        r@ == opt_subaddress_type_text(*t),
{
    match t {
        Some(x) => {
            let mut s = String::from_str("Some(");
            s.append(x.as_text());
            s.append(")");
            s
        },
        None => String::from_str("None"),
    }
}

/// Equality of two optional pre-directionals.
pub fn opt_directional_eq(
    a: &Option<StreetNamePreDirectional>,
    b: &Option<StreetNamePreDirectional>,
) -> (r: bool)
    ensures
        r == (*a == *b),
{
    match (a, b) {
        (Some(x), Some(y)) => *x == *y,
        (None, None) => true,
        _ => false,
    }
}

/// Equality of two optional subaddress types.
pub fn opt_subaddress_type_eq(
    a: &Option<SubaddressType>,
    b: &Option<SubaddressType>,
) -> (r: bool)
    ensures
        r == (*a == *b),
{
    match (a, b) {
        (Some(x), Some(y)) => *x == *y,
        (None, None) => true,
        _ => false,
    }
}

impl StreetNamePreDirectional {
    /// Renders the directional as its full English name.
    pub fn as_text(&self) -> (r: &'static str)
        ensures
            r@ == directional_text(*self),
    {
        match self {
            StreetNamePreDirectional::North => "North",
            StreetNamePreDirectional::South => "South",
            StreetNamePreDirectional::East => "East",
            StreetNamePreDirectional::West => "West",
            StreetNamePreDirectional::Northeast => "Northeast",
            StreetNamePreDirectional::Northwest => "Northwest",
            StreetNamePreDirectional::Southeast => "Southeast",
            StreetNamePreDirectional::Southwest => "Southwest",
        }
    }
}

impl StreetNamePostType {
    /// Renders the post type as its full English name.
    pub fn as_text(&self) -> (r: &'static str)
        ensures
            r@ == post_type_text(*self),
    {
        match self {
            StreetNamePostType::Street => "Street",
            StreetNamePostType::Avenue => "Avenue",
            StreetNamePostType::Boulevard => "Boulevard",
            StreetNamePostType::Circle => "Circle",
            StreetNamePostType::Court => "Court",
            StreetNamePostType::Drive => "Drive",
            StreetNamePostType::Lane => "Lane",
            StreetNamePostType::Loop => "Loop",
            StreetNamePostType::Place => "Place",
            StreetNamePostType::Road => "Road",
            StreetNamePostType::Terrace => "Terrace",
            StreetNamePostType::Way => "Way",
        }
    }
}

impl SubaddressType {
    /// Renders the subaddress type as its full English name.
    pub fn as_text(&self) -> (r: &'static str)
        ensures
            r@ == subaddress_type_text(*self),
    {
        match self {
            SubaddressType::Apartment => "Apartment",
            SubaddressType::Building => "Building",
            SubaddressType::Floor => "Floor",
            SubaddressType::Room => "Room",
            SubaddressType::Space => "Space",
            SubaddressType::Suite => "Suite",
            SubaddressType::Unit => "Unit",
        }
    }
}

impl AddressStatus {
    /// Renders the status as its full English name.
    pub fn as_text(&self) -> (r: &'static str)
        ensures
            r@ == status_text(*self),
    {
        match self {
            AddressStatus::Active => "Active",
            AddressStatus::Pending => "Pending",
            AddressStatus::Retired => "Retired",
        }
    }
}

} // verus!
