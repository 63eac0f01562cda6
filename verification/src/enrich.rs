//! The enrichment orchestrator: one enriched output per input record.

use vstd::prelude::*;

use crate::classify::{
    activity_tier_of, attack_types_of, attack_vectors_of, classify_attack_types,
    classify_attack_vectors, classify_targets, classify_urgency, severity_tier_of, targets_of,
};
use crate::dates::{
    best_expiration, expiration_of, format_instant, get_expiration,
    lemma_best_expiration_none, lemma_format_instant_nonempty,
};
use crate::model::OTXRecord;
use crate::taxonomy::{AttackType, AttackVector, Target, Urgency};

verus! {

/// The classification metadata derived from one record.
#[derive(Debug)]
pub struct EnrichedThreatRecord {
    pub attack_types: Vec<AttackType>,
    pub attack_vectors: Vec<AttackVector>,
    pub urgency: (Urgency, Urgency),
    pub targets: Vec<Target>,
    pub locations: Vec<String>,
    pub expiration_date: String,
}

/// The record's targeted countries verbatim, or the `"Unknown"` sentinel
/// when it has none.
pub open spec fn locations_of(r: OTXRecord) -> Seq<Seq<char>> {
    if r.targeted_countries@.len() == 0 {
        seq!["Unknown"@]
    } else {
        r.targeted_countries@.map_values(|s: String| s@)
    }
}

/// The formatted latest expiration, or the empty text when no indicator
/// expiration parsed.
pub open spec fn expiration_text_of(r: OTXRecord) -> Seq<char> {
    match best_expiration(r.indicators@) {
        None => Seq::empty(),
        Some(t) => format_instant(t as int),
    }
}

/// The enrichment contract: `e` holds exactly the classification of `r`.
pub open spec fn is_enriched(r: OTXRecord, e: EnrichedThreatRecord) -> bool {
    &&& e.attack_types@ == attack_types_of(r)
    &&& e.attack_vectors@ == attack_vectors_of(r)
    &&& e.urgency.0 == activity_tier_of(r)
    &&& e.urgency.1 == severity_tier_of(r)
    &&& e.targets@ == targets_of(r)
    &&& e.locations@.map_values(|s: String| s@) == locations_of(r)
    &&& e.expiration_date@ == expiration_text_of(r)
}

fn clone_string_vec(v: &Vec<String>) -> (r: Vec<String>)
    ensures
        r@ == v@,
{
    let mut out: Vec<String> = Vec::new();
    let mut i: usize = 0;
    while i < v.len()
        invariant
            i <= v.len(),
            out@ == v@.take(i as int),
        decreases v.len() - i,
    {
        out.push(v[i].clone());
        proof {
            assert(v@.take(i + 1) =~= v@.take(i as int).push(v@[i as int]));
        }
        i += 1;
    }
    proof {
        assert(v@.take(v@.len() as int) =~= v@);
    }
    out
}

/// Enriches one record: classifies it on all four axes, resolves its
/// locations and its latest expiration. The classification sets are never
/// empty, the activity tier is `Hot` or `Cold`, the severity tier is
/// `Critical`, `Medium` or `Low`, and the location list is never empty.
pub fn enrich_record(record: &OTXRecord) -> (e: EnrichedThreatRecord)
    ensures
        is_enriched(*record, e),
        e.attack_types@.len() > 0,
        e.attack_vectors@.len() > 0,
        e.targets@.len() > 0,
        e.locations@.len() > 0,
        e.urgency.0 == Urgency::Hot || e.urgency.0 == Urgency::Cold,
        e.urgency.1 == Urgency::Critical || e.urgency.1 == Urgency::Medium || e.urgency.1
            == Urgency::Low,
{
    let attack_types = classify_attack_types(record);
    let attack_vectors = classify_attack_vectors(record);
    let urgency = classify_urgency(record);
    let targets = classify_targets(record);

    let locations = if record.targeted_countries.len() == 0 {
        let mut v: Vec<String> = Vec::new();
        v.push("Unknown".to_owned());
        proof {
            assert(v@.map_values(|s: String| s@) =~= seq!["Unknown"@]);
        }
        v
    } else {
        let v = clone_string_vec(&record.targeted_countries);
        proof {
            assert(v@.map_values(|s: String| s@) =~= record.targeted_countries@.map_values(
                |s: String| s@,
            ));
        }
        v
    };

    let expiration_date = match get_expiration(record) {
        Some(d) => d,
        None => String::new(),
    };

    EnrichedThreatRecord {
        attack_types,
        attack_vectors,
        urgency,
        targets,
        locations,
        expiration_date,
    }
}

/// Enriches every record of a pulse's result list, in input order.
pub fn enrich_records(records: &Vec<OTXRecord>) -> (out: Vec<EnrichedThreatRecord>)
    ensures
        out@.len() == records@.len(),
        forall|i: int| 0 <= i < records@.len() ==> is_enriched(records@[i], #[trigger] out@[i]),
{
    let mut out: Vec<EnrichedThreatRecord> = Vec::new();
    let mut i: usize = 0;
    while i < records.len()
        invariant
            i <= records.len(),
            out@.len() == i,
            forall|j: int| 0 <= j < i ==> is_enriched(records@[j], #[trigger] out@[j]),
        decreases records.len() - i,
    {
        let e = enrich_record(&records[i]);
        out.push(e);
        i += 1;
    }
    out
}

/// Enrichment is a pure function of the record: equal inputs classify
/// equally on every axis.
pub proof fn lemma_enrichment_deterministic(r1: OTXRecord, r2: OTXRecord)
    requires
        r1 == r2,
    ensures
        attack_types_of(r1) == attack_types_of(r2),
        attack_vectors_of(r1) == attack_vectors_of(r2),
        activity_tier_of(r1) == activity_tier_of(r2),
        severity_tier_of(r1) == severity_tier_of(r2),
        targets_of(r1) == targets_of(r2),
        locations_of(r1) == locations_of(r2),
        expiration_text_of(r1) == expiration_text_of(r2),
{
}

/// The enriched expiration text is empty exactly when no indicator of the
/// record has a present, parseable expiration string.
pub proof fn lemma_expiration_empty_iff(r: OTXRecord)
    ensures
        expiration_text_of(r) == Seq::<char>::empty() <==> (forall|i: int|
            0 <= i < r.indicators@.len() ==> expiration_of(#[trigger] r.indicators@[i]) is None),
{
    lemma_best_expiration_none(r.indicators@);
    match best_expiration(r.indicators@) {
        Some(t) => {
            lemma_format_instant_nonempty(t as int);
        },
        None => {},
    }
}

} // verus!
