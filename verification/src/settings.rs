//! The settings of one namespace, and the audit that reads them against a rule table.

use vstd::prelude::*;
use crate::entries::{
    distinct_keys, has_key, lemma_put, lemma_to_map_keys, lemma_to_map_len, lemma_to_map_value,
    put, to_map, Entry,
};
use crate::ioc::{views, Suspicion, SuspicionView};
use crate::rules::{
    evaluate, finding, first_finding, lemma_standard_table, rule_views, standard_rules,
    standard_table, Rule, RuleView,
};
use crate::text::same_text;

verus! {

/// One stored setting.
#[derive(Debug)]
struct Setting {
    key: String,
    value: String,
}

/// The settings of one namespace: each key with its one current value, kept in the order in
/// which the keys were first set.
#[derive(Debug)]
pub struct Settings {
    items: Vec<Setting>,
}

/// The stored settings as entries, in their order.
spec fn listing(items: Seq<Setting>) -> Seq<Entry> {
    Seq::new(items.len(), |i: int| (items[i].key@, items[i].value@))
}

/// What an optional finding adds to a list: itself, or nothing.
pub open spec fn raised(found: Option<SuspicionView>) -> Seq<SuspicionView> {
    match found {
        Some(f) => seq![f],
        None => Seq::empty(),
    }
}

/// What an audit against `table` finds in `entries`: entry by entry, in their order, the finding
/// of the first rule that fires.
pub open spec fn findings_with(table: Seq<RuleView>, entries: Seq<Entry>) -> Seq<SuspicionView>
    decreases entries.len(),
{
    if entries.len() == 0 {
        Seq::empty()
    } else {
        findings_with(table, entries.drop_last()) + raised(
            first_finding(table, entries.last().0, entries.last().1),
        )
    }
}

/// What an audit against the built-in rules finds in `entries`: entry by entry, in their order,
/// what [`finding`] states.
pub open spec fn findings(entries: Seq<Entry>) -> Seq<SuspicionView>
    decreases entries.len(),
{
    if entries.len() == 0 {
        Seq::empty()
    } else {
        findings(entries.drop_last()) + raised(finding(entries.last().0, entries.last().1))
    }
}

impl Settings {
    /// The entries in the order in which an audit reads them.
    pub closed spec fn entries(&self) -> Seq<Entry> {
        listing(self.items@)
    }

    #[verifier::type_invariant]
    spec fn keys_are_distinct(&self) -> bool {
        distinct_keys(self.entries())
    }

    /// Settings without any entry.
    pub fn new() -> (settings: Settings)
        ensures
            settings.entries() == Seq::<Entry>::empty(),
            settings@ == Map::<Seq<char>, Seq<char>>::empty(),
            distinct_keys(settings.entries()),
    {
        let items: Vec<Setting> = Vec::new();
        assert(listing(items@) =~= Seq::<Entry>::empty());
        Settings { items }
    }

    /// The number of entries, which is the number of keys.
    pub fn len(&self) -> (n: usize)
        ensures
            n == self.entries().len(),
            n == self@.dom().len(),
            distinct_keys(self.entries()),
    {
        proof {
            use_type_invariant(self);
            lemma_to_map_len(self.entries());
        }
        self.items.len()
    }

    /// The place of `key` among the entries, if it has one.
    fn position(&self, key: &str) -> (place: Option<usize>)
        ensures
            match place {
                Some(i) => i < self.entries().len() && self.entries()[i as int].0 == key@,
                None => !has_key(self.entries(), key@),
            },
    {
        let mut i: usize = 0;
        while i < self.items.len()
            invariant
                i <= self.items@.len(),
                forall|j: int| 0 <= j < i ==> self.entries()[j].0 != key@,
            decreases self.items@.len() - i,
        {
            if same_text(self.items[i].key.as_str(), key) {
                return Some(i);
            }
            i = i + 1;
        }
        None
    }

    /// The current value of `key`, if it has one.
    pub fn get(&self, key: &str) -> (value: Option<&String>)
        ensures
            match value {
                Some(v) => self@.contains_key(key@) && self@[key@] == v@,
                None => !self@.contains_key(key@),
            },
    {
        proof {
            use_type_invariant(self);
            lemma_to_map_keys(self.entries());
        }
        match self.position(key) {
            Some(i) => {
                proof {
                    lemma_to_map_value(self.entries(), i as int);
                }
                Some(&self.items[i].value)
            },
            None => None,
        }
    }

    /// Sets `key` to `value` and returns the value that it replaces, if any. A key that is
    /// already set keeps its place among the entries; a new key goes to the end.
    pub fn insert(&mut self, key: String, value: String) -> (previous: Option<String>)
        ensures
            final(self).entries() == put(old(self).entries(), key@, value@),
            final(self)@ == old(self)@.insert(key@, value@),
            distinct_keys(final(self).entries()),
            match previous {
                Some(p) => old(self)@.contains_key(key@) && old(self)@[key@] == p@,
                None => !old(self)@.contains_key(key@),
            },
    {
        proof {
            use_type_invariant(&*self);
            lemma_to_map_keys(self.entries());
            lemma_put(self.entries(), key@, value@);
        }
        let ghost before = self.entries();
        let place = self.position(key.as_str());
        let mut items: Vec<Setting> = Vec::new();
        std::mem::swap(&mut items, &mut self.items);
        let previous = match place {
            Some(i) => {
                proof {
                    lemma_to_map_value(before, i as int);
                }
                let replaced = items.remove(i);
                items.insert(i, Setting { key, value });
                Some(replaced.value)
            },
            None => {
                items.push(Setting { key, value });
                None
            },
        };
        assert(listing(items@) =~= put(before, key@, value@));
        self.items = items;
        previous
    }

    /// Audits the settings against `table`: every entry is read once, in order, and raises the
    /// finding of the first rule that fires on it, if any does.
    pub fn audit_with(&self, table: &Vec<Rule>) -> (found: Vec<Suspicion>)
        ensures
            views(found@) == findings_with(rule_views(table@), self.entries()),
    {
        let mut found: Vec<Suspicion> = Vec::new();
        let mut i: usize = 0;
        assert(self.entries().take(0) =~= Seq::<Entry>::empty());
        assert(views(found@) =~= Seq::<SuspicionView>::empty());
        while i < self.items.len()
            invariant
                i <= self.items@.len(),
                self.items@.len() == self.entries().len(),
                views(found@) == findings_with(rule_views(table@), self.entries().take(i as int)),
            decreases self.items@.len() - i,
        {
            let ghost read = self.entries().take(i + 1);
            let ghost before = views(found@);
            assert(read.drop_last() =~= self.entries().take(i as int));
            assert(read.last() == self.entries()[i as int]);
            let item = &self.items[i];
            match evaluate(table, item.key.as_str(), item.value.as_str()) {
                Some(f) => {
                    found.push(f);
                    assert(views(found@) =~= before + seq![f@]);
                },
                None => {
                    assert(views(found@) =~= before + Seq::<SuspicionView>::empty());
                },
            }
            i = i + 1;
        }
        assert(self.entries().take(i as int) =~= self.entries());
        found
    }

    /// Audits the settings against the built-in rules: every entry is read once, in order, and
    /// raises what [`finding`] states of it.
    pub fn audit(&self) -> (found: Vec<Suspicion>)
        ensures
            views(found@) == findings(self.entries()),
    {
        let table = standard_rules();
        proof {
            lemma_standard_findings(self.entries());
        }
        self.audit_with(&table)
    }
}

/// Against the built-in table an audit finds exactly what [`findings`] states.
pub proof fn lemma_standard_findings(entries: Seq<Entry>)
    ensures
        findings_with(standard_table(), entries) == findings(entries),
    decreases entries.len(),
{
    if entries.len() > 0 {
        lemma_standard_findings(entries.drop_last());
        lemma_standard_table(entries.last().0, entries.last().1);
    }
}

impl Clone for Settings {
    /// A copy with the same entries in the same order.
    fn clone(&self) -> (copy: Settings)
        ensures
            copy.entries() == self.entries(),
            distinct_keys(copy.entries()),
    {
        let mut items: Vec<Setting> = Vec::new();
        let mut i: usize = 0;
        while i < self.items.len()
            invariant
                i <= self.items@.len(),
                items@.len() == i,
                forall|j: int|
                    0 <= j < i ==> items@[j].key@ == self.items@[j].key@ && items@[j].value@
                        == self.items@[j].value@,
            decreases self.items@.len() - i,
        {
            let item = &self.items[i];
            items.push(Setting { key: item.key.clone(), value: item.value.clone() });
            i = i + 1;
        }
        proof {
            use_type_invariant(self);
            assert(listing(items@) =~= listing(self.items@));
        }
        Settings { items }
    }
}

impl View for Settings {
    type V = Map<Seq<char>, Seq<char>>;

    /// The mapping from each key to its value.
    open spec fn view(&self) -> Map<Seq<char>, Seq<char>> {
        to_map(self.entries())
    }
}

} // verus!
