//! Classification of source addresses against a candidate dataset, and the
//! resulting set of match records.
//!
//! For one source address and a list of candidate records, every candidate
//! that converts and is coincident yields one record: Matching when no
//! secondary field disagrees, Divergent otherwise. When no candidate is
//! coincident at all, exactly one Missing record is produced.

use vstd::prelude::*;

use crate::address::coincident_spec;
use crate::address::label_spec;
use crate::address::mismatch_list;
use crate::address::mismatches_spec;
use crate::address::Address;
use crate::address::AddressModel;
use crate::address::Mismatch;
use crate::address::MismatchModel;
use crate::sources::source_to_address_spec;
use crate::sources::SourceAddress;
use crate::sources::SourceModel;
use crate::text::clone_opt_string;
use crate::text::opt_int;
use crate::text::opt_text;

verus! {

/// The classification of one source address against one candidate dataset.
#[derive(Clone, Copy, Debug, PartialEq, Eq, Structural)]
pub enum MatchStatus {
    /// A coincident candidate with no secondary drift exists.
    Matching,
    /// A coincident candidate exists but some secondary field disagrees.
    Divergent,
    /// No coincident candidate exists in the dataset.
    Missing,
}

/// Model of a [`MatchRecord`].
pub struct MatchRecordModel {
    pub match_status: MatchStatus,
    pub address_label: Seq<char>,
    pub self_id: int,
    pub other_id: Option<int>,
    pub subaddress_type: Option<Seq<char>>,
    pub floor: Option<Seq<char>>,
    pub building: Option<Seq<char>>,
    pub status: Option<Seq<char>>,
}

/// One row of classification output: the verdict for one source address
/// against one candidate, or its absence from the whole dataset. The four
/// optional fields carry the rendered disagreement for the corresponding
/// secondary attribute, and are populated only when that field diverged.
#[derive(Debug)]
pub struct MatchRecord {
    pub match_status: MatchStatus,
    pub address_label: String,
    pub self_id: i64,
    pub other_id: Option<i64>,
    pub subaddress_type: Option<String>,
    pub floor: Option<String>,
    pub building: Option<String>,
    pub status: Option<String>,
}

impl View for MatchRecord {
    type V = MatchRecordModel;

    open spec fn view(&self) -> MatchRecordModel {
        MatchRecordModel {
            match_status: self.match_status,
            address_label: self.address_label@,
            self_id: self.self_id as int,
            other_id: opt_int(self.other_id),
            subaddress_type: opt_text(self.subaddress_type),
            floor: opt_text(self.floor),
            building: opt_text(self.building),
            status: opt_text(self.status),
        }
    }
}

/// The ordered set of match records for one dataset pass.
#[derive(Debug)]
pub struct MatchRecords {
    pub records: Vec<MatchRecord>,
}

impl View for MatchRecords {
    type V = Seq<MatchRecordModel>;

    open spec fn view(&self) -> Seq<MatchRecordModel> {
        self.records@.map_values(|r: MatchRecord| r@)
    }
}

/// The rendered drift of the four secondary fields, each absent until a
/// mismatch on that field is applied.
pub struct DriftFields {
    pub subaddress_type: Option<Seq<char>>,
    pub floor: Option<Seq<char>>,
    pub building: Option<Seq<char>>,
    pub status: Option<Seq<char>>,
}

/// Drift fields with every secondary field in agreement.
pub open spec fn no_drift() -> DriftFields {
    DriftFields { subaddress_type: None, floor: None, building: None, status: None }
}

/// Populates the drift field addressed by one mismatch.
pub open spec fn apply_mismatch(acc: DriftFields, m: MismatchModel) -> DriftFields {
    match m {
        MismatchModel::SubaddressType(t) => DriftFields { subaddress_type: Some(t), ..acc },
        MismatchModel::Floor(t) => DriftFields { floor: Some(t), ..acc },
        MismatchModel::Building(t) => DriftFields { building: Some(t), ..acc },
        MismatchModel::Status(t) => DriftFields { status: Some(t), ..acc },
    }
}

/// Populates drift fields from a whole mismatch list, in order.
pub open spec fn apply_mismatches(acc: DriftFields, ms: Seq<MismatchModel>) -> DriftFields
    decreases ms.len(),
{
    if ms.len() == 0 {
        acc
    } else {
        apply_mismatch(apply_mismatches(acc, ms.drop_last()), ms.last())
    }
}

/// The record emitted for a coincident candidate with no drift.
pub open spec fn matching_record(lbl: Seq<char>, self_id: int, other_id: int) -> MatchRecordModel {
    MatchRecordModel {
        match_status: MatchStatus::Matching,
        address_label: lbl,
        self_id: self_id,
        other_id: Some(other_id),
        subaddress_type: None,
        floor: None,
        building: None,
        status: None,
    }
}

/// The record emitted for a coincident candidate with drift: its secondary
/// fields are populated from the mismatch list.
pub open spec fn divergent_record(
    lbl: Seq<char>,
    self_id: int,
    other_id: int,
    ms: Seq<MismatchModel>,
) -> MatchRecordModel {
    let f = apply_mismatches(no_drift(), ms);
    MatchRecordModel {
        match_status: MatchStatus::Divergent,
        address_label: lbl,
        self_id: self_id,
        other_id: Some(other_id),
        subaddress_type: f.subaddress_type,
        floor: f.floor,
        building: f.building,
        status: f.status,
    }
}

/// The single record emitted when no candidate is coincident.
pub open spec fn missing_record(lbl: Seq<char>, self_id: int) -> MatchRecordModel {
    MatchRecordModel {
        match_status: MatchStatus::Missing,
        address_label: lbl,
        self_id: self_id,
        other_id: None,
        subaddress_type: None,
        floor: None,
        building: None,
        status: None,
    }
}

/// The records contributed by one converted candidate: nothing when it is
/// not coincident with the source, one Matching or Divergent record when
/// it is.
pub open spec fn candidate_record(
    src: AddressModel,
    lbl: Seq<char>,
    cand: AddressModel,
) -> Seq<MatchRecordModel> {
    if coincident_spec(src, cand) {
        let ms = mismatch_list(src, cand);
        if ms.len() == 0 {
            seq![matching_record(lbl, src.object_id, cand.object_id)]
        } else {
            seq![divergent_record(lbl, src.object_id, cand.object_id, ms)]
        }
    } else {
        Seq::empty()
    }
}

/// The records contributed by one raw candidate: a candidate that fails
/// conversion is skipped silently.
pub open spec fn candidate_source_record(
    src: AddressModel,
    lbl: Seq<char>,
    cand: SourceModel,
) -> Seq<MatchRecordModel> {
    match source_to_address_spec(cand) {
        Some(a) => candidate_record(src, lbl, a),
        None => Seq::empty(),
    }
}

/// The records contributed by a whole candidate list, in order.
pub open spec fn candidate_records(
    src: AddressModel,
    lbl: Seq<char>,
    cands: Seq<SourceModel>,
) -> Seq<MatchRecordModel>
    decreases cands.len(),
{
    if cands.len() == 0 {
        Seq::empty()
    } else {
        candidate_records(src, lbl, cands.drop_last()) + candidate_source_record(
            src,
            lbl,
            cands.last(),
        )
    }
}

/// The classification of one source address: the records of all coincident
/// candidates, or exactly one Missing record when there is none.
pub open spec fn classify_spec(src: AddressModel, cands: Seq<SourceModel>) -> Seq<
    MatchRecordModel,
> {
    let rs = candidate_records(src, label_spec(src), cands);
    if rs.len() == 0 {
        seq![missing_record(label_spec(src), src.object_id)]
    } else {
        rs
    }
}

/// The models of a list of source records.
pub open spec fn source_models(v: Seq<SourceAddress>) -> Seq<SourceModel> {
    v.map_values(|s: SourceAddress| s@)
}

/// The classification of a whole source dataset: the classifications of
/// every source record that converts, concatenated in dataset order.
pub open spec fn compare_spec(
    sources: Seq<SourceModel>,
    cands: Seq<SourceModel>,
) -> Seq<MatchRecordModel>
    decreases sources.len(),
{
    if sources.len() == 0 {
        Seq::empty()
    } else {
        compare_spec(sources.drop_last(), cands) + (match source_to_address_spec(
            sources.last(),
        ) {
            Some(a) => classify_spec(a, cands),
            None => Seq::empty(),
        })
    }
}

/// Copies one match record.
fn clone_record(r: &MatchRecord) -> (c: MatchRecord)
    ensures
        c@ == r@,
{
    MatchRecord {
        match_status: r.match_status,
        address_label: r.address_label.clone(),
        self_id: r.self_id,
        other_id: r.other_id,
        subaddress_type: clone_opt_string(&r.subaddress_type),
        floor: clone_opt_string(&r.floor),
        building: clone_opt_string(&r.building),
        status: clone_opt_string(&r.status),
    }
}

impl MatchRecords {
    /// Classifies one source address against a candidate list: one record
    /// per coincident candidate, or one Missing record when none exists.
    pub fn new(self_address: &Address, other_addresses: &Vec<SourceAddress>) -> (r: Self)
        ensures
            r@ == classify_spec(self_address@, source_models(other_addresses@)),
    {
        let self_id = self_address.object_id;
        let address_label = self_address.label();
        let ghost cands: Seq<SourceModel> = source_models(other_addresses@);

        let mut match_record: Vec<MatchRecord> = Vec::new();

        let n = other_addresses.len();
        let mut i: usize = 0;
        while i < n
            invariant
                n == other_addresses@.len(),
                i <= n,
                cands == source_models(other_addresses@),
                address_label@ == label_spec(self_address@),
                self_id == self_address.object_id,
                match_record@.map_values(|r: MatchRecord| r@) == candidate_records(
                    self_address@,
                    address_label@,
                    cands.take(i as int),
                ),
            decreases n - i,
        {
            let candidate = &other_addresses[i];
            proof {
                assert(cands[i as int] == candidate@);
            }
            match candidate.to_address() {
                Some(other) => {
                    let address_match = self_address.coincident(&other);
                    if address_match.coincident {
                        let other_id = Some(other.object_id);
                        match address_match.mismatches {
                            None => {
                                match_record.push(
                                    MatchRecord {
                                        match_status: MatchStatus::Matching,
                                        address_label: address_label.clone(),
                                        self_id,
                                        other_id,
                                        subaddress_type: None,
                                        floor: None,
                                        building: None,
                                        status: None,
                                    },
                                );
                            },
                            Some(mismatches) => {
                                let mut subaddress_type: Option<String> = None;
                                let mut floor: Option<String> = None;
                                let mut building: Option<String> = None;
                                let mut status: Option<String> = None;
                                let ghost ms: Seq<MismatchModel> = mismatches@;
                                let m = mismatches.fields.len();
                                let mut j: usize = 0;
                                while j < m
                                    invariant
                                        m == mismatches.fields@.len(),
                                        j <= m,
                                        ms == mismatches@,
                                        (DriftFields {
                                            subaddress_type: opt_text(subaddress_type),
                                            floor: opt_text(floor),
                                            building: opt_text(building),
                                            status: opt_text(status),
                                        }) == apply_mismatches(no_drift(), ms.take(j as int)),
                                    decreases m - j,
                                {
                                    proof {
                                        assert(ms.take(j as int + 1).drop_last() =~= ms.take(
                                            j as int,
                                        ));
                                    }
                                    match &mismatches.fields[j] {
                                        Mismatch::SubaddressType(message) => {
                                            subaddress_type = Some(message.clone());
                                        },
                                        Mismatch::Floor(message) => {
                                            floor = Some(message.clone());
                                        },
                                        Mismatch::Building(message) => {
                                            building = Some(message.clone());
                                        },
                                        Mismatch::Status(message) => {
                                            status = Some(message.clone());
                                        },
                                    }
                                    j += 1;
                                }
                                proof {
                                    assert(ms.take(m as int) =~= ms);
                                }
                                match_record.push(
                                    MatchRecord {
                                        match_status: MatchStatus::Divergent,
                                        address_label: address_label.clone(),
                                        self_id,
                                        other_id,
                                        subaddress_type,
                                        floor,
                                        building,
                                        status,
                                    },
                                );
                            },
                        }
                    }
                },
                None => {},
            }
            proof {
                assert(cands.take(i as int + 1).drop_last() =~= cands.take(i as int));
                assert(cands.take(i as int + 1).last() == cands[i as int]);
                assert(match_record@.map_values(|r: MatchRecord| r@) =~= candidate_records(
                    self_address@,
                    address_label@,
                    cands.take(i as int + 1),
                ));
            }
            i += 1;
        }
        proof {
            assert(cands.take(n as int) =~= cands);
        }
        if match_record.is_empty() {
            match_record.push(
                MatchRecord {
                    match_status: MatchStatus::Missing,
                    address_label,
                    self_id,
                    other_id: None,
                    subaddress_type: None,
                    floor: None,
                    building: None,
                    status: None,
                },
            );
            proof {
                assert(match_record@.map_values(|r: MatchRecord| r@) =~= classify_spec(
                    self_address@,
                    cands,
                ));
            }
        }
        MatchRecords { records: match_record }
    }

    /// Classifies a whole source dataset against a candidate dataset: the
    /// classifications of every source record that converts, in order.
    pub fn compare(sources: &Vec<SourceAddress>, targets: &Vec<SourceAddress>) -> (r: Self)
        ensures
            r@ == compare_spec(source_models(sources@), source_models(targets@)),
    {
        let ghost srcs: Seq<SourceModel> = source_models(sources@);
        let ghost cands: Seq<SourceModel> = source_models(targets@);
        let mut records: Vec<MatchRecord> = Vec::new();
        let n = sources.len();
        let mut i: usize = 0;
        while i < n
            invariant
                n == sources@.len(),
                i <= n,
                srcs == source_models(sources@),
                cands == source_models(targets@),
                records@.map_values(|r: MatchRecord| r@) == compare_spec(
                    srcs.take(i as int),
                    cands,
                ),
            decreases n - i,
        {
            let source = &sources[i];
            proof {
                assert(srcs[i as int] == source@);
            }
            match source.to_address() {
                Some(address) => {
                    let mut part = MatchRecords::new(&address, targets);
                    records.append(&mut part.records);
                },
                None => {},
            }
            proof {
                assert(srcs.take(i as int + 1).drop_last() =~= srcs.take(i as int));
                assert(srcs.take(i as int + 1).last() == srcs[i as int]);
                assert(records@.map_values(|r: MatchRecord| r@) =~= compare_spec(
                    srcs.take(i as int + 1),
                    cands,
                ));
            }
            i += 1;
        }
        proof {
            assert(srcs.take(n as int) =~= srcs);
        }
        MatchRecords { records }
    }

    /// Keeps only the records with the given classification status,
    /// preserving their relative order.
    pub fn filter(&self, status: MatchStatus) -> (r: Self)
        ensures
            r@ == self@.filter(|m: MatchRecordModel| m.match_status == status),
    {
        let mut records: Vec<MatchRecord> = Vec::new();
        let n = self.records.len();
        let mut i: usize = 0;
        proof {
            reveal(Seq::filter);
        }
        while i < n
            invariant
                n == self.records@.len(),
                i <= n,
                records@.map_values(|r: MatchRecord| r@) == self@.take(i as int).filter(
                    |m: MatchRecordModel| m.match_status == status,
                ),
            decreases n - i,
        {
            proof {
                reveal(Seq::filter);
                assert(self@.take(i as int + 1).drop_last() =~= self@.take(i as int));
                assert(self@.take(i as int + 1).last() == self@[i as int]);
            }
            let record = &self.records[i];
            if record.match_status == status {
                records.push(clone_record(record));
            }
            proof {
                assert(records@.map_values(|r: MatchRecord| r@) =~= self@.take(i as int + 1)
                    .filter(|m: MatchRecordModel| m.match_status == status));
            }
            i += 1;
        }
        proof {
            assert(self@.take(n as int) =~= self@);
        }
        MatchRecords { records }
    }

    /// The number of records in the set.
    pub fn len(&self) -> (n: usize)
        ensures
            n == self@.len(),
    {
        self.records.len()
    }

    /// Whether the set holds no records.
    pub fn is_empty(&self) -> (b: bool)
        ensures
            b == (self@.len() == 0),
    {
        self.records.is_empty()
    }
}

} // verus!
