//! The difference between the configuration that runs and the one that
//! should: which components leave, which arrive, and which are restarted.

use crate::config::{
    contains_string, find_component, has_key, keys_of, lemma_position_of, lookup, position_of,
    ComponentSpecView, Config,
};
use vstd::prelude::*;

verus! {

/// What a reload has to do to the running components, by key.
///
/// A component that runs and is named in none of the three lists is left
/// alone.
#[derive(Clone, Debug, PartialEq, Eq)]
pub struct ConfigDiff {
    /// Components to stop: they run, and the new configuration has none of
    /// that name.
    pub to_remove: Vec<String>,
    /// Components to start: the new configuration names them, and none of
    /// that name runs.
    pub to_add: Vec<String>,
    /// Components to restart: present before and after, and either described
    /// differently or marked for a forced restart.
    pub to_change: Vec<String>,
}

/// The mathematical value of a [`ConfigDiff`].
pub struct ConfigDiffView {
    pub to_remove: Seq<Seq<char>>,
    pub to_add: Seq<Seq<char>>,
    pub to_change: Seq<Seq<char>>,
}

impl View for ConfigDiff {
    type V = ConfigDiffView;

    open spec fn view(&self) -> ConfigDiffView {
        ConfigDiffView {
            to_remove: self.to_remove.deep_view(),
            to_add: self.to_add.deep_view(),
            to_change: self.to_change.deep_view(),
        }
    }
}

impl ConfigDiffView {
    /// Whether the difference asks for nothing.
    pub open spec fn is_empty(self) -> bool {
        self.to_remove.len() == 0 && self.to_add.len() == 0 && self.to_change.len() == 0
    }

    /// Whether the difference stops, starts or restarts the component `key`.
    pub open spec fn touches(self, key: Seq<char>) -> bool {
        self.to_remove.contains(key) || self.to_add.contains(key) || self.to_change.contains(key)
    }
}

/// Whether `c`, which runs, has no place in the configuration `new`.
pub open spec fn leaves(new: Seq<ComponentSpecView>, c: ComponentSpecView) -> bool {
    !has_key(new, c.key)
}

/// Whether `c`, which the new configuration names, is absent from `old`.
pub open spec fn arrives(old: Seq<ComponentSpecView>, c: ComponentSpecView) -> bool {
    !has_key(old, c.key)
}

/// Whether `c`, which the new configuration names, runs already and has to
/// be restarted: it is described differently than before, or `forced`
/// names it.
pub open spec fn restarts(
    old: Seq<ComponentSpecView>,
    forced: Set<Seq<char>>,
    c: ComponentSpecView,
) -> bool {
    has_key(old, c.key) && (lookup(old, c.key) != Some(c) || forced.contains(c.key))
}

/// Whether `c`, which the new configuration names, runs already and stays
/// as it is.
pub open spec fn stays(
    old: Seq<ComponentSpecView>,
    forced: Set<Seq<char>>,
    c: ComponentSpecView,
) -> bool {
    lookup(old, c.key) == Some(c) && !forced.contains(c.key)
}

/// The difference between the components `old` and `new`, with `forced`
/// naming the components to restart even where nothing changed. Each list
/// keeps the order of the configuration it is drawn from.
pub open spec fn diff_of(
    old: Seq<ComponentSpecView>,
    new: Seq<ComponentSpecView>,
    forced: Set<Seq<char>>,
) -> ConfigDiffView {
    ConfigDiffView {
        to_remove: keys_of(old.filter(|c: ComponentSpecView| leaves(new, c))),
        to_add: keys_of(new.filter(|c: ComponentSpecView| arrives(old, c))),
        to_change: keys_of(new.filter(|c: ComponentSpecView| restarts(old, forced, c))),
    }
}

/// A filter that no element passes leaves nothing.
pub proof fn lemma_filter_none<A>(s: Seq<A>, pred: spec_fn(A) -> bool)
    requires
        forall|i: int| 0 <= i < s.len() ==> !pred(#[trigger] s[i]),
    ensures
        s.filter(pred).len() == 0,
    decreases s.len(),
{
    reveal(Seq::filter);
    if s.len() > 0 {
        lemma_filter_none(s.drop_last(), pred);
    }
}

/// A key is among the keys of the components that pass a filter exactly
/// when some component of that key passes it.
pub proof fn lemma_filtered_keys(
    s: Seq<ComponentSpecView>,
    pred: spec_fn(ComponentSpecView) -> bool,
    key: Seq<char>,
)
    ensures
        keys_of(s.filter(pred)).contains(key) <==> exists|i: int|
            0 <= i < s.len() && (#[trigger] s[i]).key == key && pred(s[i]),
{
    let f = s.filter(pred);
    if keys_of(f).contains(key) {
        let k = choose|k: int| 0 <= k < keys_of(f).len() && keys_of(f)[k] == key;
        s.lemma_filter_pred(pred, k);
        s.lemma_filter_contains_rev(pred, f[k]);
        let i = choose|i: int| 0 <= i < s.len() && s[i] == f[k];
        assert(s[i].key == key && pred(s[i]));
    }
    if exists|i: int| 0 <= i < s.len() && (#[trigger] s[i]).key == key && pred(s[i]) {
        let i = choose|i: int| 0 <= i < s.len() && (#[trigger] s[i]).key == key && pred(s[i]);
        s.lemma_filter_contains(pred, i);
        let k = choose|k: int| 0 <= k < f.len() && f[k] == s[i];
        assert(keys_of(f)[k] == key);
    }
}

/// The position that a search from the front arrives at is the position
/// that `position_of` names.
pub proof fn lemma_found_first(cs: Seq<ComponentSpecView>, key: Seq<char>, at: int)
    requires
        0 <= at < cs.len(),
        cs[at].key == key,
        forall|j: int| 0 <= j < at ==> (#[trigger] cs[j]).key != key,
    ensures
        has_key(cs, key),
        position_of(cs, key) == at,
        lookup(cs, key) == Some(cs[at]),
{
    lemma_position_of(cs, key);
}

/// Computes the difference between the running configuration `old` and the
/// configuration `new` that should replace it; `forced` names the components
/// to restart even where their description did not change.
pub fn compute_diff(old: &Config, new: &Config, forced: &Vec<String>) -> (diff: ConfigDiff)
    ensures
        diff@ == diff_of(old@.components, new@.components, forced.deep_view().to_set()),
{
    let olds = old.components();
    let news = new.components();
    let ghost ocs = old@.components;
    let ghost ncs = new@.components;
    let ghost fset = forced.deep_view().to_set();
    let ghost leaving = |c: ComponentSpecView| leaves(ncs, c);
    let ghost arriving = |c: ComponentSpecView| arrives(ocs, c);
    let ghost restarting = |c: ComponentSpecView| restarts(ocs, fset, c);

    let mut to_remove: Vec<String> = Vec::new();
    let mut i: usize = 0;
    assert(ocs.take(0).filter(leaving).len() == 0) by {
        lemma_filter_none(ocs.take(0), leaving);
    }
    while i < olds.len()
        invariant
            i <= olds.len(),
            ocs == olds.deep_view(),
            ncs == news.deep_view(),
            leaving == (|c: ComponentSpecView| leaves(ncs, c)),
            to_remove.deep_view() =~= keys_of(ocs.take(i as int).filter(leaving)),
        decreases olds.len() - i,
    {
        let found = find_component(news, &olds[i].key, news.len());
        proof {
            assert(forall|k: int| 0 <= k < ncs.len() ==> (#[trigger] ncs[k]).key == news@[k].key@);
            assert(ocs[i as int].key == olds@[i as int].key@);
            assert(ocs.take(i + 1) =~= ocs.take(i as int).push(ocs[i as int]));
            ocs.take(i as int).lemma_filter_push(ocs[i as int], leaving);
            if let Some(j) = found {
                assert(ncs[j as int].key == ocs[i as int].key);
            }
            assert(found.is_none() == leaving(ocs[i as int]));
        }
        let ghost before = to_remove.deep_view();
        let ghost kept = ocs.take(i as int).filter(leaving);
        if found.is_none() {
            to_remove.push(olds[i].key.clone());
            assert(to_remove.deep_view() =~= before.push(ocs[i as int].key));
            assert(keys_of(kept.push(ocs[i as int])) =~= keys_of(kept).push(ocs[i as int].key));
        }
        i += 1;
    }
    assert(ocs.take(olds.len() as int) =~= ocs);

    let mut to_add: Vec<String> = Vec::new();
    let mut to_change: Vec<String> = Vec::new();
    let mut n: usize = 0;
    assert(ncs.take(0).filter(arriving).len() == 0) by {
        lemma_filter_none(ncs.take(0), arriving);
    }
    assert(ncs.take(0).filter(restarting).len() == 0) by {
        lemma_filter_none(ncs.take(0), restarting);
    }
    while n < news.len()
        invariant
            n <= news.len(),
            ocs == olds.deep_view(),
            ncs == news.deep_view(),
            fset == forced.deep_view().to_set(),
            arriving == (|c: ComponentSpecView| arrives(ocs, c)),
            restarting == (|c: ComponentSpecView| restarts(ocs, fset, c)),
            to_add.deep_view() =~= keys_of(ncs.take(n as int).filter(arriving)),
            to_change.deep_view() =~= keys_of(ncs.take(n as int).filter(restarting)),
        decreases news.len() - n,
    {
        let found = find_component(olds, &news[n].key, olds.len());
        proof {
            assert(forall|k: int| 0 <= k < ocs.len() ==> (#[trigger] ocs[k]).key == olds@[k].key@);
            assert(ncs[n as int] == news@[n as int]@);
            assert(ncs.take(n + 1) =~= ncs.take(n as int).push(ncs[n as int]));
            ncs.take(n as int).lemma_filter_push(ncs[n as int], arriving);
            ncs.take(n as int).lemma_filter_push(ncs[n as int], restarting);
        }
        let ghost added = to_add.deep_view();
        let ghost changed = to_change.deep_view();
        let ghost new_kept = ncs.take(n as int).filter(arriving);
        let ghost both_kept = ncs.take(n as int).filter(restarting);
        match found {
            None => {
                assert(arriving(ncs[n as int]));
                assert(!restarting(ncs[n as int]));
                to_add.push(news[n].key.clone());
                assert(to_add.deep_view() =~= added.push(ncs[n as int].key));
                assert(keys_of(new_kept.push(ncs[n as int])) =~= keys_of(new_kept).push(
                    ncs[n as int].key,
                ));
            },
            Some(j) => {
                proof {
                    lemma_found_first(ocs, ncs[n as int].key, j as int);
                    assert(ocs[j as int] == olds@[j as int]@);
                }
                let unchanged = olds[j].same_as(&news[n]);
                let marked = contains_string(forced, &news[n].key);
                assert(!arriving(ncs[n as int]));
                assert(restarting(ncs[n as int]) == (!unchanged || marked));
                if !unchanged || marked {
                    to_change.push(news[n].key.clone());
                    assert(to_change.deep_view() =~= changed.push(ncs[n as int].key));
                    assert(keys_of(both_kept.push(ncs[n as int])) =~= keys_of(both_kept).push(
                        ncs[n as int].key,
                    ));
                }
            },
        }
        n += 1;
    }
    assert(ncs.take(news.len() as int) =~= ncs);
    ConfigDiff { to_remove, to_add, to_change }
}

impl ConfigDiff {
    /// Whether the difference asks for nothing.
    pub fn is_empty(&self) -> (empty: bool)
        ensures
            empty == self@.is_empty(),
    {
        self.to_remove.len() == 0 && self.to_add.len() == 0 && self.to_change.len() == 0
    }

    /// Whether the difference stops, starts or restarts the component `key`.
    pub fn touches(&self, key: &String) -> (touched: bool)
        ensures
            touched == self@.touches(key@),
    {
        contains_string(&self.to_remove, key) || contains_string(&self.to_add, key)
            || contains_string(&self.to_change, key)
    }
}

} // verus!
