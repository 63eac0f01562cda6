//! Aggregation of a record's text fields into one search blob, and the
//! keyword classifiers that run the taxonomy tables over it.

use vstd::prelude::*;
use vstd::string::StringExecFns;

use crate::model::{OTXIndicator, OTXRecord, role_text};
use crate::taxonomy::{
    AttackType, AttackVector, Target, Urgency, attack_type_keywords, attack_type_table,
    attack_vector_keywords, attack_vector_table, pairs_view, target_keywords, target_table,
    urgency_keywords, urgency_table,
};
use crate::text::{contains_substring, has_substring, lower_of, lowercase};

verus! {

/// The record's tags, each preceded by one joining space.
pub open spec fn tags_text(tags: Seq<String>) -> Seq<char>
    decreases tags.len(),
{
    if tags.len() == 0 {
        Seq::empty()
    } else {
        tags_text(tags.drop_last()) + seq![' '] + tags.last()@
    }
}

/// Per-indicator text: title and description, and with `with_role` also the
/// role (empty when absent), each field preceded by one joining space.
pub open spec fn indicators_text(inds: Seq<OTXIndicator>, with_role: bool) -> Seq<char>
    decreases inds.len(),
{
    if inds.len() == 0 {
        Seq::empty()
    } else {
        indicators_text(inds.drop_last(), with_role) + seq![' '] + inds.last().title@ + seq![' ']
            + inds.last().description@ + (if with_role {
            seq![' '] + role_text(inds.last())
        } else {
            Seq::<char>::empty()
        })
    }
}

/// Name, description and tags, space-joined: the urgency classifier's blob.
pub open spec fn base_text(r: OTXRecord) -> Seq<char> {
    r.name@ + seq![' '] + r.description@ + tags_text(r.tags@)
}

/// The full blob for the substring classifiers: base text followed by the
/// indicator fields.
pub open spec fn classifier_text(r: OTXRecord, with_role: bool) -> Seq<char> {
    base_text(r) + indicators_text(r.indicators@, with_role)
}

/// Builds the space-joined name, description and tags of `r`.
fn aggregate_base(r: &OTXRecord) -> (s: String)
    ensures
        s@ == base_text(*r),
{
    proof {
        reveal_strlit(" ");
        assert(" "@ =~= seq![' ']);
    }
    let mut s = String::new();
    s.append(r.name.as_str());
    s.append(" ");
    s.append(r.description.as_str());
    let mut i: usize = 0;
    while i < r.tags.len()
        invariant
            i <= r.tags.len(),
            " "@ =~= seq![' '],
            s@ == r.name@ + seq![' '] + r.description@ + tags_text(r.tags@.take(i as int)),
        decreases r.tags.len() - i,
    {
        s.append(" ");
        s.append(r.tags[i].as_str());
        proof {
            let t = r.tags@;
            assert(t.take(i + 1).drop_last() =~= t.take(i as int));
            assert(t.take(i + 1).last() == t[i as int]);
        }
        i += 1;
    }
    proof {
        assert(r.tags@.take(r.tags@.len() as int) =~= r.tags@);
    }
    s
}

/// Builds the full classifier blob of `r`, with or without indicator roles.
fn aggregate_record_text(r: &OTXRecord, with_role: bool) -> (s: String)
    ensures
        s@ == classifier_text(*r, with_role),
{
    proof {
        reveal_strlit(" ");
        assert(" "@ =~= seq![' ']);
    }
    let mut s = aggregate_base(r);
    let mut i: usize = 0;
    while i < r.indicators.len()
        invariant
            i <= r.indicators.len(),
            " "@ =~= seq![' '],
            s@ == base_text(*r) + indicators_text(r.indicators@.take(i as int), with_role),
        decreases r.indicators.len() - i,
    {
        s.append(" ");
        s.append(r.indicators[i].title.as_str());
        s.append(" ");
        s.append(r.indicators[i].description.as_str());
        if with_role {
            s.append(" ");
            if let Some(ro) = &r.indicators[i].role {
                s.append(ro.as_str());
            }
        }
        proof {
            let t = r.indicators@;
            assert(t.take(i + 1).drop_last() =~= t.take(i as int));
            assert(t.take(i + 1).last() == t[i as int]);
        }
        i += 1;
    }
    proof {
        assert(r.indicators@.take(r.indicators@.len() as int) =~= r.indicators@);
    }
    s
}

/// The categories matched by the first `n` table entries, in table order,
/// without duplicates.
pub open spec fn matched_cats<T>(table: Seq<(Seq<char>, T)>, text: Seq<char>, n: int) -> Seq<T>
    decreases n,
{
    if n <= 0 {
        Seq::empty()
    } else {
        let prev = matched_cats(table, text, n - 1);
        if has_substring(text, table[n - 1].0) && !prev.contains(table[n - 1].1) {
            prev.push(table[n - 1].1)
        } else {
            prev
        }
    }
}

/// The full classification result: the matched categories, or the sentinel
/// alone when nothing matched.
pub open spec fn classified_cats<T>(table: Seq<(Seq<char>, T)>, text: Seq<char>, sentinel: T) -> Seq<T> {
    let m = matched_cats(table, text, table.len() as int);
    if m.len() == 0 {
        seq![sentinel]
    } else {
        m
    }
}

/// True when no entry of `table` carries the category `c`.
pub open spec fn table_omits<T>(table: Seq<(Seq<char>, T)>, c: T) -> bool
    decreases table.len(),
{
    table.len() == 0 || (table.last().1 != c && table_omits(table.drop_last(), c))
}

proof fn lemma_table_omits_from_all<T>(table: Seq<(Seq<char>, T)>, c: T)
    requires
        forall|i: int| 0 <= i < table.len() ==> (#[trigger] table[i]).1 != c,
    ensures
        table_omits(table, c),
    decreases table.len(),
{
    if table.len() > 0 {
        assert(forall|i: int|
            0 <= i < table.len() - 1 ==> table.drop_last()[i] == #[trigger] table[i]);
        lemma_table_omits_from_all(table.drop_last(), c);
    }
}

proof fn lemma_table_omits_index<T>(table: Seq<(Seq<char>, T)>, c: T, i: int)
    requires
        table_omits(table, c),
        0 <= i < table.len(),
    ensures
        table[i].1 != c,
    decreases table.len(),
{
    if i < table.len() - 1 {
        assert(table.drop_last()[i] == table[i]);
        lemma_table_omits_index(table.drop_last(), c, i);
    }
}

/// The matched-category prefix never contains a category the table omits,
/// and it is non-empty exactly when some of the first `n` keywords occurs
/// in the text.
proof fn lemma_matched_cats_props<T>(table: Seq<(Seq<char>, T)>, text: Seq<char>, sentinel: T, n: int)
    requires
        table_omits(table, sentinel),
        0 <= n <= table.len(),
    ensures
        !matched_cats(table, text, n).contains(sentinel),
        matched_cats(table, text, n).len() > 0 <==> exists|i: int|
            0 <= i < n && has_substring(text, #[trigger] table[i].0),
    decreases n,
{
    if n > 0 {
        lemma_matched_cats_props(table, text, sentinel, n - 1);
        let prev = matched_cats(table, text, n - 1);
        if has_substring(text, table[n - 1].0) {
            assert(exists|i: int| 0 <= i < n && has_substring(text, #[trigger] table[i].0));
            if !prev.contains(table[n - 1].1) {
                let cur = prev.push(table[n - 1].1);
                lemma_table_omits_index(table, sentinel, n - 1);
                assert forall|j: int| 0 <= j < cur.len() implies cur[j] != sentinel by {
                    if j < prev.len() {
                        assert(!prev.contains(sentinel));
                        assert(cur[j] == prev[j]);
                    }
                }
            }
        }
    }
}

/// A matched-category prefix never repeats a category: the membership
/// guard in `matched_cats` keeps first-seen order and drops duplicates.
proof fn lemma_matched_cats_unique<T>(table: Seq<(Seq<char>, T)>, text: Seq<char>, n: int)
    ensures
        forall|j: int, k: int|
            0 <= j < k < matched_cats(table, text, n).len() ==> matched_cats(table, text, n)[j]
                != matched_cats(table, text, n)[k],
    decreases n,
{
    if n > 0 {
        lemma_matched_cats_unique(table, text, n - 1);
        let prev = matched_cats(table, text, n - 1);
        let cat = table[n - 1].1;
        if has_substring(text, table[n - 1].0) && !prev.contains(cat) {
            let cur = prev.push(cat);
            assert forall|j: int, k: int| 0 <= j < k < cur.len() implies cur[j] != cur[k] by {
                if k == prev.len() {
                    assert(cur[j] == prev[j]);
                    assert(!prev.contains(cat));
                }
            }
        }
    }
}

/// A classification result never repeats a category.
pub proof fn lemma_classified_cats_unique<T>(
    table: Seq<(Seq<char>, T)>,
    text: Seq<char>,
    sentinel: T,
)
    ensures
        forall|j: int, k: int|
            0 <= j < k < classified_cats(table, text, sentinel).len() ==> classified_cats(
                table,
                text,
                sentinel,
            )[j] != classified_cats(table, text, sentinel)[k],
{
    lemma_matched_cats_unique(table, text, table.len() as int);
}

/// A classification result is never empty, and it contains the sentinel
/// exactly when no keyword of the table occurs in the text. This is the
/// law behind the `Unknown` sentinel of every classifier.
pub proof fn lemma_classified_cats_sentinel<T>(table: Seq<(Seq<char>, T)>, text: Seq<char>, sentinel: T)
    requires
        table_omits(table, sentinel),
    ensures
        classified_cats(table, text, sentinel).len() > 0,
        classified_cats(table, text, sentinel).contains(sentinel) <==> !(exists|i: int|
            0 <= i < table.len() && has_substring(text, #[trigger] table[i].0)),
{
    lemma_matched_cats_props(table, text, sentinel, table.len() as int);
    let m = matched_cats(table, text, table.len() as int);
    if m.len() == 0 {
        assert(classified_cats(table, text, sentinel) == seq![sentinel]);
        assert(seq![sentinel][0] == sentinel);
    }
}

fn contains_attack_type(v: &Vec<AttackType>, x: AttackType) -> (r: bool)
    ensures
        r == v@.contains(x),
{
    let mut i: usize = 0;
    while i < v.len()
        invariant
            i <= v.len(),
            forall|j: int| 0 <= j < i ==> v@[j] != x,
        decreases v.len() - i,
    {
        if v[i] == x {
            return true;
        }
        i += 1;
    }
    false
}

fn contains_attack_vector(v: &Vec<AttackVector>, x: AttackVector) -> (r: bool)
    ensures
        r == v@.contains(x),
{
    let mut i: usize = 0;
    while i < v.len()
        invariant
            i <= v.len(),
            forall|j: int| 0 <= j < i ==> v@[j] != x,
        decreases v.len() - i,
    {
        if v[i] == x {
            return true;
        }
        i += 1;
    }
    false
}

fn contains_target(v: &Vec<Target>, x: Target) -> (r: bool)
    ensures
        r == v@.contains(x),
{
    let mut i: usize = 0;
    while i < v.len()
        invariant
            i <= v.len(),
            forall|j: int| 0 <= j < i ==> v@[j] != x,
        decreases v.len() - i,
    {
        if v[i] == x {
            return true;
        }
        i += 1;
    }
    false
}

/// The attack types of `r`: the ordered-unique matches of the attack-type
/// table against the lower-cased full blob, or `[Unknown]`.
pub open spec fn attack_types_of(r: OTXRecord) -> Seq<AttackType> {
    classified_cats(
        attack_type_table(),
        lower_of(classifier_text(r, true)),
        AttackType::Unknown,
    )
}

/// Classifies the record's attack types.
pub fn classify_attack_types(record: &OTXRecord) -> (r: Vec<AttackType>)
    ensures
        r@ == attack_types_of(*record),
        r@.len() > 0,
        forall|j: int, k: int| 0 <= j < k < r@.len() ==> r@[j] != r@[k],
        r@.contains(AttackType::Unknown) <==> !(exists|i: int|
            0 <= i < attack_type_table().len() && has_substring(
                lower_of(classifier_text(*record, true)),
                #[trigger] attack_type_table()[i].0,
            )),
{
    proof {
        assert forall|i: int|
            0 <= i < attack_type_table().len() implies (#[trigger] attack_type_table()[i]).1
            != AttackType::Unknown by {}
        lemma_table_omits_from_all(attack_type_table(), AttackType::Unknown);
        lemma_classified_cats_sentinel(
            attack_type_table(),
            lower_of(classifier_text(*record, true)),
            AttackType::Unknown,
        );
        lemma_classified_cats_unique(
            attack_type_table(),
            lower_of(classifier_text(*record, true)),
            AttackType::Unknown,
        );
    }
    let text = aggregate_record_text(record, true);
    let flattened = lowercase(text.as_str());
    let table = attack_type_keywords();
    let ghost stext = lower_of(classifier_text(*record, true));
    let mut cats: Vec<AttackType> = Vec::new();
    let mut i: usize = 0;
    while i < table.len()
        invariant
            i <= table.len(),
            flattened@ == stext,
            pairs_view(table@) == attack_type_table(),
            table@.len() == attack_type_table().len(),
            cats@ == matched_cats(attack_type_table(), stext, i as int),
        decreases table.len() - i,
    {
        proof {
            assert(attack_type_table()[i as int] == (table@[i as int].0@, table@[i as int].1));
        }
        if contains_substring(flattened.as_str(), table[i].0) && !contains_attack_type(
            &cats,
            table[i].1,
        ) {
            cats.push(table[i].1);
        }
        i += 1;
    }
    if cats.len() == 0 {
        let mut u: Vec<AttackType> = Vec::new();
        u.push(AttackType::Unknown);
        proof {
            assert(u@ =~= seq![AttackType::Unknown]);
        }
        u
    } else {
        cats
    }
}

/// The attack vectors of `r`: the ordered-unique matches of the
/// attack-vector table against the lower-cased role-free blob, or
/// `[Unknown]`.
pub open spec fn attack_vectors_of(r: OTXRecord) -> Seq<AttackVector> {
    classified_cats(
        attack_vector_table(),
        lower_of(classifier_text(r, false)),
        AttackVector::Unknown,
    )
}

/// Classifies the record's attack vectors.
pub fn classify_attack_vectors(record: &OTXRecord) -> (r: Vec<AttackVector>)
    ensures
        r@ == attack_vectors_of(*record),
        r@.len() > 0,
        forall|j: int, k: int| 0 <= j < k < r@.len() ==> r@[j] != r@[k],
        r@.contains(AttackVector::Unknown) <==> !(exists|i: int|
            0 <= i < attack_vector_table().len() && has_substring(
                lower_of(classifier_text(*record, false)),
                #[trigger] attack_vector_table()[i].0,
            )),
{
    proof {
        assert forall|i: int|
            0 <= i < attack_vector_table().len() implies (#[trigger] attack_vector_table()[i]).1
            != AttackVector::Unknown by {}
        lemma_table_omits_from_all(attack_vector_table(), AttackVector::Unknown);
        lemma_classified_cats_sentinel(
            attack_vector_table(),
            lower_of(classifier_text(*record, false)),
            AttackVector::Unknown,
        );
        lemma_classified_cats_unique(
            attack_vector_table(),
            lower_of(classifier_text(*record, false)),
            AttackVector::Unknown,
        );
    }
    let text = aggregate_record_text(record, false);
    let flattened = lowercase(text.as_str());
    let table = attack_vector_keywords();
    let ghost stext = lower_of(classifier_text(*record, false));
    let mut cats: Vec<AttackVector> = Vec::new();
    let mut i: usize = 0;
    while i < table.len()
        invariant
            i <= table.len(),
            flattened@ == stext,
            pairs_view(table@) == attack_vector_table(),
            table@.len() == attack_vector_table().len(),
            cats@ == matched_cats(attack_vector_table(), stext, i as int),
        decreases table.len() - i,
    {
        proof {
            assert(attack_vector_table()[i as int] == (table@[i as int].0@, table@[i as int].1));
        }
        if contains_substring(flattened.as_str(), table[i].0) && !contains_attack_vector(
            &cats,
            table[i].1,
        ) {
            cats.push(table[i].1);
        }
        i += 1;
    }
    if cats.len() == 0 {
        let mut u: Vec<AttackVector> = Vec::new();
        u.push(AttackVector::Unknown);
        proof {
            assert(u@ =~= seq![AttackVector::Unknown]);
        }
        u
    } else {
        cats
    }
}

/// The targets of `r`: the ordered-unique matches of the target table
/// against the lower-cased full blob, or `[Unknown]`.
pub open spec fn targets_of(r: OTXRecord) -> Seq<Target> {
    classified_cats(target_table(), lower_of(classifier_text(r, true)), Target::Unknown)
}

/// Classifies the record's targets.
pub fn classify_targets(record: &OTXRecord) -> (r: Vec<Target>)
    ensures
        r@ == targets_of(*record),
        r@.len() > 0,
        forall|j: int, k: int| 0 <= j < k < r@.len() ==> r@[j] != r@[k],
        r@.contains(Target::Unknown) <==> !(exists|i: int|
            0 <= i < target_table().len() && has_substring(
                lower_of(classifier_text(*record, true)),
                #[trigger] target_table()[i].0,
            )),
{
    proof {
        assert forall|i: int|
            0 <= i < target_table().len() implies (#[trigger] target_table()[i]).1
            != Target::Unknown by {}
        lemma_table_omits_from_all(target_table(), Target::Unknown);
        lemma_classified_cats_sentinel(
            target_table(),
            lower_of(classifier_text(*record, true)),
            Target::Unknown,
        );
        lemma_classified_cats_unique(
            target_table(),
            lower_of(classifier_text(*record, true)),
            Target::Unknown,
        );
    }
    let text = aggregate_record_text(record, true);
    let flattened = lowercase(text.as_str());
    let table = target_keywords();
    let ghost stext = lower_of(classifier_text(*record, true));
    let mut cats: Vec<Target> = Vec::new();
    let mut i: usize = 0;
    while i < table.len()
        invariant
            i <= table.len(),
            flattened@ == stext,
            pairs_view(table@) == target_table(),
            table@.len() == target_table().len(),
            cats@ == matched_cats(target_table(), stext, i as int),
        decreases table.len() - i,
    {
        proof {
            assert(target_table()[i as int] == (table@[i as int].0@, table@[i as int].1));
        }
        if contains_substring(flattened.as_str(), table[i].0) && !contains_target(
            &cats,
            table[i].1,
        ) {
            cats.push(table[i].1);
        }
        i += 1;
    }
    if cats.len() == 0 {
        let mut u: Vec<Target> = Vec::new();
        u.push(Target::Unknown);
        proof {
            assert(u@ =~= seq![Target::Unknown]);
        }
        u
    } else {
        cats
    }
}

/// The activity score of an indicator list: +1 for each active indicator,
/// -1 for each inactive one.
pub open spec fn activity_score(inds: Seq<OTXIndicator>) -> int
    decreases inds.len(),
{
    if inds.len() == 0 {
        0
    } else {
        activity_score(inds.drop_last()) + (if inds.last().is_active == 1 {
            1int
        } else {
            -1int
        })
    }
}

/// True of the three severity tiers, false of the two activity tiers.
pub open spec fn is_severity_level(u: Urgency) -> bool {
    u == Urgency::Critical || u == Urgency::Medium || u == Urgency::Low
}

/// The running severity after the first `n` urgency-table entries: each
/// matching severity-level keyword overwrites the value, so the last match
/// in table order wins; with no match it stays `Low`.
pub open spec fn severity_after(table: Seq<(Seq<char>, Urgency)>, text: Seq<char>, n: int) -> Urgency
    decreases n,
{
    if n <= 0 {
        Urgency::Low
    } else if has_substring(text, table[n - 1].0) && is_severity_level(table[n - 1].1) {
        table[n - 1].1
    } else {
        severity_after(table, text, n - 1)
    }
}

/// The activity tier of `r`: `Hot` on a strictly positive activity score,
/// else `Cold`.
pub open spec fn activity_tier_of(r: OTXRecord) -> Urgency {
    if activity_score(r.indicators@) > 0 {
        Urgency::Hot
    } else {
        Urgency::Cold
    }
}

/// The severity tier of `r`, scored over the lower-cased base text.
pub open spec fn severity_tier_of(r: OTXRecord) -> Urgency {
    severity_after(urgency_table(), lower_of(base_text(r)), urgency_table().len() as int)
}

/// The severity is always one of `Critical`, `Medium`, `Low`: the running
/// value starts at `Low` and only severity-level keywords overwrite it.
pub proof fn lemma_severity_is_severity_level(
    table: Seq<(Seq<char>, Urgency)>,
    text: Seq<char>,
    n: int,
)
    ensures
        is_severity_level(severity_after(table, text, n)),
    decreases n,
{
    if n > 0 {
        lemma_severity_is_severity_level(table, text, n - 1);
    }
}

/// Classifies the record's urgency as an (activity tier, severity tier)
/// pair. The activity tier is `Hot` or `Cold`; the severity tier is
/// `Critical`, `Medium` or `Low`.
pub fn classify_urgency(record: &OTXRecord) -> (r: (Urgency, Urgency))
    ensures
        r.0 == activity_tier_of(*record),
        r.1 == severity_tier_of(*record),
        r.0 == Urgency::Hot || r.0 == Urgency::Cold,
        is_severity_level(r.1),
{
    let text = aggregate_base(record);
    let flattened = lowercase(text.as_str());
    let ghost stext = lower_of(base_text(*record));

    let mut tipper: i128 = 0;
    let mut i: usize = 0;
    while i < record.indicators.len()
        invariant
            i <= record.indicators.len(),
            -(i as int) <= tipper <= i as int,
            tipper == activity_score(record.indicators@.take(i as int)),
        decreases record.indicators.len() - i,
    {
        proof {
            let t = record.indicators@;
            assert(t.take(i + 1).drop_last() =~= t.take(i as int));
            assert(t.take(i + 1).last() == t[i as int]);
        }
        if record.indicators[i].is_active == 1 {
            tipper = tipper + 1;
        } else {
            tipper = tipper - 1;
        }
        i += 1;
    }
    proof {
        assert(record.indicators@.take(record.indicators@.len() as int) =~= record.indicators@);
    }

    let table = urgency_keywords();
    let mut severity = Urgency::Low;
    let mut k: usize = 0;
    while k < table.len()
        invariant
            k <= table.len(),
            flattened@ == stext,
            pairs_view(table@) == urgency_table(),
            table@.len() == urgency_table().len(),
            severity == severity_after(urgency_table(), stext, k as int),
        decreases table.len() - k,
    {
        proof {
            assert(urgency_table()[k as int] == (table@[k as int].0@, table@[k as int].1));
        }
        if contains_substring(flattened.as_str(), table[k].0) {
            match table[k].1 {
                Urgency::Critical | Urgency::Medium | Urgency::Low => {
                    severity = table[k].1;
                },
                _ => {},
            }
        }
        k += 1;
    }

    let tier = if tipper > 0 {
        Urgency::Hot
    } else {
        Urgency::Cold
    };
    proof {
        lemma_severity_is_severity_level(urgency_table(), stext, urgency_table().len() as int);
    }
    (tier, severity)
}

} // verus!
