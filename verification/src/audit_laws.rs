//! What holds of every audit: how its findings follow the entries, and that the mapping alone
//! decides which findings there are.

use vstd::prelude::*;
use vstd::seq_lib::lemma_multiset_commutative;
use crate::entries::{
    distinct_keys, has_key, lemma_concat_entries, lemma_remove_entry, lemma_to_map_keys,
    lemma_to_map_value, to_map, Entry,
};
use crate::ioc::SuspicionView;
use crate::rules::{first_finding, standard_table, RuleView};
use crate::settings::{findings, findings_with, lemma_standard_findings, raised};

verus! {

/// An audit raises at most one finding for each entry.
pub proof fn lemma_findings_len(table: Seq<RuleView>, entries: Seq<Entry>)
    ensures
        findings_with(table, entries).len() <= entries.len(),
    decreases entries.len(),
{
    if entries.len() > 0 {
        lemma_findings_len(table, entries.drop_last());
    }
}

/// The audit of one listing after another is the audit of the first followed by the audit of
/// the second.
pub proof fn lemma_findings_concat(table: Seq<RuleView>, first: Seq<Entry>, second: Seq<Entry>)
    ensures
        findings_with(table, first + second) == findings_with(table, first) + findings_with(
            table,
            second,
        ),
    decreases second.len(),
{
    if second.len() == 0 {
        assert(first + second =~= first);
        assert(findings_with(table, first) + Seq::<SuspicionView>::empty() =~= findings_with(
            table,
            first,
        ));
    } else {
        let both = first + second;
        assert(both.drop_last() =~= first + second.drop_last());
        assert(both.last() == second.last());
        lemma_findings_concat(table, first, second.drop_last());
        let tail = raised(first_finding(table, second.last().0, second.last().1));
        assert((findings_with(table, first) + findings_with(table, second.drop_last())) + tail
            =~= findings_with(table, first) + (findings_with(table, second.drop_last()) + tail));
    }
}

/// Taking one entry out of a listing takes out of the audit what that entry raised, and nothing
/// else.
pub proof fn lemma_findings_remove(table: Seq<RuleView>, entries: Seq<Entry>, i: int)
    requires
        0 <= i < entries.len(),
    ensures
        findings_with(table, entries).to_multiset() == findings_with(
            table,
            entries.remove(i),
        ).to_multiset().add(raised(first_finding(table, entries[i].0, entries[i].1)).to_multiset()),
{
    let front = entries.take(i);
    let back = entries.skip(i + 1);
    let one = seq![entries[i]];
    assert(entries =~= front + one + back);
    assert(entries.remove(i) =~= front + back);
    lemma_findings_concat(table, front, one);
    lemma_findings_concat(table, front + one, back);
    lemma_findings_concat(table, front, back);
    assert(one.drop_last() =~= Seq::<Entry>::empty());
    let hit = raised(first_finding(table, entries[i].0, entries[i].1));
    assert(one.last() == entries[i]);
    assert(findings_with(table, one.drop_last()) =~= Seq::<SuspicionView>::empty());
    assert(findings_with(table, one) =~= hit);
    let f = findings_with(table, front);
    let b = findings_with(table, back);
    lemma_multiset_commutative(f, hit);
    lemma_multiset_commutative(f + hit, b);
    lemma_multiset_commutative(f, b);
    assert((f + hit + b).to_multiset() =~= (f + b).to_multiset().add(hit.to_multiset()));
}

/// Two listings that stand for the same mapping raise the same findings, order aside.
pub proof fn lemma_findings_of_mapping(table: Seq<RuleView>, a: Seq<Entry>, b: Seq<Entry>)
    requires
        distinct_keys(a),
        distinct_keys(b),
        to_map(a) == to_map(b),
    ensures
        findings_with(table, a).to_multiset() == findings_with(table, b).to_multiset(),
    decreases a.len(),
{
    lemma_to_map_keys(a);
    lemma_to_map_keys(b);
    if a.len() == 0 {
        if b.len() > 0 {
            assert(b[0].0 == b[0].0);
            assert(has_key(b, b[0].0));
            assert(to_map(a).contains_key(b[0].0));
        }
    } else {
        let last = a.len() - 1;
        let key = a[last].0;
        assert(a[last].0 == key);
        assert(to_map(b).contains_key(key));
        let j = choose|j: int| 0 <= j < b.len() && #[trigger] b[j].0 == key;
        lemma_to_map_value(a, last);
        lemma_to_map_value(b, j);
        assert(b[j] == a[last]);
        lemma_remove_entry(a, last);
        lemma_remove_entry(b, j);
        lemma_findings_of_mapping(table, a.remove(last), b.remove(j));
        lemma_findings_remove(table, a, last);
        lemma_findings_remove(table, b, j);
    }
}

/// An audit is a function of the settings: equal entries raise equal findings in equal order,
/// and equal mappings raise equal findings, order aside.
pub proof fn lemma_audit_deterministic(a: Seq<Entry>, b: Seq<Entry>)
    requires
        distinct_keys(a),
        distinct_keys(b),
        to_map(a) == to_map(b),
    ensures
        a == b ==> findings(a) == findings(b),
        findings(a).to_multiset() == findings(b).to_multiset(),
{
    lemma_standard_findings(a);
    lemma_standard_findings(b);
    lemma_findings_of_mapping(standard_table(), a, b);
}

/// The audit of the union of two mappings without a common key raises what the audits of the
/// two raise together, order aside.
pub proof fn lemma_audit_of_union(whole: Seq<Entry>, first: Seq<Entry>, second: Seq<Entry>)
    requires
        distinct_keys(whole),
        distinct_keys(first),
        distinct_keys(second),
        to_map(first).dom().disjoint(to_map(second).dom()),
        to_map(whole) == to_map(first).union_prefer_right(to_map(second)),
    ensures
        findings(whole).to_multiset() == findings(first).to_multiset().add(
            findings(second).to_multiset(),
        ),
{
    let table = standard_table();
    lemma_standard_findings(whole);
    lemma_standard_findings(first);
    lemma_standard_findings(second);
    lemma_concat_entries(first, second);
    lemma_findings_of_mapping(table, whole, first + second);
    lemma_findings_concat(table, first, second);
    lemma_multiset_commutative(findings_with(table, first), findings_with(table, second));
}

} // verus!
