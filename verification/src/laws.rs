//! Proved laws of the comparator and the classifier.
//!
//! Each proof function states one global property of the library's
//! specification functions, over the same models that the executable
//! contracts use.

use vstd::prelude::*;

use crate::address::coincident_spec;
use crate::address::label_spec;
use crate::address::mismatch_list;
use crate::address::mismatches_spec;
use crate::address::status_mismatch;
use crate::address::AddressModel;
use crate::address::MismatchModel;
use crate::records::apply_mismatch;
use crate::records::apply_mismatches;
use crate::records::candidate_records;
use crate::records::classify_spec;
use crate::records::no_drift;
use crate::records::divergent_record;
use crate::records::MatchRecordModel;
use crate::records::matching_record;
use crate::records::missing_record;
use crate::records::MatchStatus;
use crate::sources::source_to_address_spec;
use crate::sources::SourceModel;

verus! {

/// The secondary field a mismatch is about, without its rendered payload.
pub enum MismatchKind {
    SubaddressType,
    Floor,
    Building,
    Status,
}

/// The kind of one mismatch.
pub open spec fn kind_of(m: MismatchModel) -> MismatchKind {
    match m {
        MismatchModel::SubaddressType(_) => MismatchKind::SubaddressType,
        MismatchModel::Floor(_) => MismatchKind::Floor,
        MismatchModel::Building(_) => MismatchKind::Building,
        MismatchModel::Status(_) => MismatchKind::Status,
    }
}

/// The kinds of a mismatch list, in order.
pub open spec fn kinds_of(ms: Seq<MismatchModel>) -> Seq<MismatchKind> {
    ms.map_values(|m: MismatchModel| kind_of(m))
}

/// Comparing an address with itself always finds it coincident, with no
/// mismatch on any secondary field.
pub proof fn lemma_coincident_reflexive(a: AddressModel)
    ensures
        coincident_spec(a, a),
        mismatches_spec(a, a) == Seq::<MismatchModel>::empty(),
{
    assert(mismatch_list(a, a) =~= Seq::<MismatchModel>::empty());
}

/// Coincidence is symmetric, and the two mismatch lists address the same
/// secondary fields in the same order (the rendered payloads swap sides).
pub proof fn lemma_coincident_symmetric(a: AddressModel, b: AddressModel)
    ensures
        coincident_spec(a, b) == coincident_spec(b, a),
        kinds_of(mismatches_spec(a, b)) == kinds_of(mismatches_spec(b, a)),
{
    assert(kinds_of(mismatches_spec(a, b)) =~= kinds_of(mismatches_spec(b, a)));
}

/// When any identity field differs, the pair is not coincident and no
/// mismatch is recorded.
pub proof fn lemma_identity_difference(a: AddressModel, b: AddressModel)
    requires
        a.address_number != b.address_number || a.address_number_suffix
            != b.address_number_suffix || a.street_name_pre_directional
            != b.street_name_pre_directional || a.street_name != b.street_name
            || a.street_name_post_type != b.street_name_post_type || a.subaddress_identifier
            != b.subaddress_identifier || a.zip_code != b.zip_code || a.postal_community
            != b.postal_community || a.state_name != b.state_name,
    ensures
        !coincident_spec(a, b),
        mismatches_spec(a, b) == Seq::<MismatchModel>::empty(),
{
}

/// Classifying against an empty candidate list yields exactly one record,
/// and its status is Missing.
pub proof fn lemma_classify_empty(src: AddressModel)
    ensures
        classify_spec(src, Seq::empty()) == seq![
            missing_record(label_spec(src), src.object_id),
        ],
        classify_spec(src, Seq::empty()).len() == 1,
        classify_spec(src, Seq::empty())[0].match_status == MatchStatus::Missing,
{
    assert(classify_spec(src, Seq::empty()) =~= seq![
        missing_record(label_spec(src), src.object_id),
    ]);
}

/// Classifying against a single candidate that converts to a fully equal
/// address yields exactly one Matching record, carrying that candidate's
/// object id.
pub proof fn lemma_classify_unique_match(src: AddressModel, cand: SourceModel, c: AddressModel)
    requires
        source_to_address_spec(cand) == Some(c),
        coincident_spec(src, c),
        src.subaddress_type == c.subaddress_type,
        src.floor == c.floor,
        src.building == c.building,
        src.status == c.status,
    ensures
        classify_spec(src, seq![cand]) == seq![
            matching_record(label_spec(src), src.object_id, c.object_id),
        ],
        classify_spec(src, seq![cand]).len() == 1,
        classify_spec(src, seq![cand])[0].match_status == MatchStatus::Matching,
        classify_spec(src, seq![cand])[0].other_id == Some(c.object_id),
{
    let cands = seq![cand];
    let lbl = label_spec(src);
    assert(cands.drop_last() =~= Seq::<SourceModel>::empty());
    assert(cands.last() == cand);
    assert(mismatch_list(src, c) =~= Seq::<MismatchModel>::empty());
    assert(candidate_records(src, lbl, Seq::<SourceModel>::empty())
        == Seq::<MatchRecordModel>::empty());
    assert(candidate_records(src, lbl, cands) =~= seq![
        matching_record(lbl, src.object_id, c.object_id),
    ]);
    assert(classify_spec(src, cands) =~= seq![
        matching_record(label_spec(src), src.object_id, c.object_id),
    ]);
}

proof fn lemma_candidate_records_never_missing(
    src: AddressModel,
    lbl: Seq<char>,
    cands: Seq<SourceModel>,
)
    ensures
        forall|i: int|
            0 <= i < candidate_records(src, lbl, cands).len()
                ==> #[trigger] candidate_records(src, lbl, cands)[i].match_status
                != MatchStatus::Missing,
    decreases cands.len(),
{
    if cands.len() > 0 {
        lemma_candidate_records_never_missing(src, lbl, cands.drop_last());
    }
}

/// A classification never yields zero records, and a Missing record is
/// never mixed with records of any other status: when one appears, the
/// whole outcome is exactly that single record.
pub proof fn lemma_missing_is_exclusive(src: AddressModel, cands: Seq<SourceModel>)
    ensures
        classify_spec(src, cands).len() > 0,
        (exists|i: int|
            0 <= i < classify_spec(src, cands).len()
                && #[trigger] classify_spec(src, cands)[i].match_status
                == MatchStatus::Missing) ==> classify_spec(src, cands) == seq![
            missing_record(label_spec(src), src.object_id),
        ],
{
    lemma_candidate_records_never_missing(src, label_spec(src), cands);
    let rs = candidate_records(src, label_spec(src), cands);
    if rs.len() == 0 {
        assert(classify_spec(src, cands) =~= seq![
            missing_record(label_spec(src), src.object_id),
        ]);
    }
}

/// Whether a candidate converts to an address that is coincident with the
/// source and agrees on every secondary field except the status, where it
/// disagrees.
pub open spec fn status_drift_only(src: AddressModel, cand: SourceModel) -> bool {
    match source_to_address_spec(cand) {
        Some(c) => coincident_spec(src, c) && c.subaddress_type == src.subaddress_type
            && c.floor == src.floor && c.building == src.building && c.status != src.status,
        None => false,
    }
}

proof fn lemma_candidate_records_status_drift(
    src: AddressModel,
    lbl: Seq<char>,
    cands: Seq<SourceModel>,
)
    requires
        forall|i: int| 0 <= i < cands.len() ==> #[trigger] status_drift_only(src, cands[i]),
    ensures
        candidate_records(src, lbl, cands).len() == cands.len(),
        forall|i: int|
            0 <= i < cands.len() ==> {
                let r = #[trigger] candidate_records(src, lbl, cands)[i];
                r.match_status == MatchStatus::Divergent && r.status is Some
                    && r.subaddress_type is None && r.floor is None && r.building is None
            },
    decreases cands.len(),
{
    if cands.len() > 0 {
        let prefix = cands.drop_last();
        let last = cands.last();
        assert forall|i: int|
            0 <= i < prefix.len() implies #[trigger] status_drift_only(src, prefix[i]) by {
            assert(prefix[i] == cands[i]);
            assert(status_drift_only(src, cands[i]));
        }
        lemma_candidate_records_status_drift(src, lbl, prefix);
        assert(status_drift_only(src, last)) by {
            assert(cands[cands.len() - 1] == last);
        }
        let c = source_to_address_spec(last)->Some_0;
        let ms = seq![status_mismatch(src.status, c.status)];
        assert(mismatch_list(src, c) =~= ms);
        assert(ms.drop_last() =~= Seq::<MismatchModel>::empty());
        assert(apply_mismatches(no_drift(), ms.drop_last()) == no_drift());
        assert(apply_mismatches(no_drift(), ms) == apply_mismatch(
            no_drift(),
            status_mismatch(src.status, c.status),
        ));
        let r = divergent_record(lbl, src.object_id, c.object_id, mismatch_list(src, c));
        assert(r.match_status == MatchStatus::Divergent && r.status is Some
            && r.subaddress_type is None && r.floor is None && r.building is None);
    }
}

/// Classifying against candidates that each drift only in status yields
/// exactly one Divergent record per candidate, each with a populated
/// status field and no other populated drift field.
pub proof fn lemma_classify_status_drift(src: AddressModel, cands: Seq<SourceModel>)
    requires
        cands.len() > 0,
        forall|i: int| 0 <= i < cands.len() ==> #[trigger] status_drift_only(src, cands[i]),
    ensures
        classify_spec(src, cands).len() == cands.len(),
        forall|i: int|
            0 <= i < cands.len() ==> {
                let r = #[trigger] classify_spec(src, cands)[i];
                r.match_status == MatchStatus::Divergent && r.status is Some
                    && r.subaddress_type is None && r.floor is None && r.building is None
            },
{
    lemma_candidate_records_status_drift(src, label_spec(src), cands);
}

} // verus!
