//! Reconciliation of civic address records from heterogeneous sources.
//!
//! Source records are normalized into a canonical [`Address`], pairs of
//! addresses are compared for coincidence (same physical location) with
//! field-level drift detection, and whole datasets are reduced into a
//! classified set of match records.

pub mod address;
pub mod components;
pub mod laws;
pub mod records;
pub mod sources;
pub mod text;

pub use address::Address;
pub use address::AddressMatch;
pub use address::Mismatch;
pub use address::Mismatches;
pub use components::AddressStatus;
pub use components::StreetNamePreDirectional;
pub use components::StreetNamePostType;
pub use components::SubaddressType;
pub use records::MatchRecord;
pub use records::MatchRecords;
pub use records::MatchStatus;
pub use sources::CityAddress;
pub use sources::CityAddresses;
pub use sources::CountyAddress;
pub use sources::CountyAddresses;
pub use sources::SourceAddress;
