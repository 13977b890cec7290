//! The running topology: the configuration that is live, and for each of its
//! components the reload that last started it.

use crate::config::{
    contains_string, copy_strings, find_component, has_key, position_of, Config, ConfigView,
};
use crate::diff::{compute_diff, diff_of, lemma_found_first, stays, ConfigDiff, ConfigDiffView};
use vstd::prelude::*;

verus! {

/// The live set of components, together with the configuration that produced
/// them.
///
/// The topology counts its reloads: it starts in epoch 0, and every reload
/// that is applied begins the next epoch. Each component remembers the epoch
/// in which it was last started, so a component that a reload leaves alone
/// is told apart from one that it starts or restarts.
#[derive(Debug, PartialEq, Eq)]
pub struct RunningTopology {
    pub(crate) config: Config,
    pub(crate) since: Vec<u64>,
    pub(crate) epoch: u64,
    pub(crate) forced: Vec<String>,
}

/// The mathematical value of a [`RunningTopology`].
pub struct TopologyView {
    /// The configuration that runs.
    pub config: ConfigView,
    /// For each component, in the order of the configuration, the epoch in
    /// which it was last started.
    pub since: Seq<u64>,
    /// The current epoch.
    pub epoch: u64,
    /// The components that every reload restarts, changed or not.
    pub forced: Set<Seq<char>>,
}

/// The epoch after `epoch`. The count stops at the largest number it can
/// hold.
pub open spec fn next_epoch(epoch: u64) -> u64 {
    if epoch < u64::MAX {
        (epoch + 1) as u64
    } else {
        epoch
    }
}

impl TopologyView {
    /// A topology is well formed when its configuration is, every component
    /// has its epoch, and no component was started after the current epoch.
    pub open spec fn wf(self) -> bool {
        &&& self.config.wf()
        &&& self.since.len() == self.config.components.len()
        &&& forall|i: int| 0 <= i < self.since.len() ==> #[trigger] self.since[i] <= self.epoch
    }

    /// The topology that `config` gives when it is first started.
    pub open spec fn started(config: ConfigView) -> TopologyView {
        TopologyView {
            config,
            since: Seq::new(config.components.len(), |i: int| 0u64),
            epoch: 0,
            forced: Set::empty(),
        }
    }

    /// The epoch in which the component `key` was last started, if it runs.
    pub open spec fn started_in(self, key: Seq<char>) -> Option<u64> {
        if has_key(self.config.components, key) {
            Some(self.since[position_of(self.config.components, key)])
        } else {
            None
        }
    }

    /// What a reload to `new` has to stop, start and restart.
    pub open spec fn diff_to(self, new: ConfigView) -> ConfigDiffView {
        diff_of(self.config.components, new.components, self.forced)
    }

    /// The topology after a reload to `new` was applied: `new` runs, the
    /// next epoch has begun, the components that stay keep the epoch of
    /// their start, and all others were started in the new epoch.
    pub open spec fn reloaded(self, new: ConfigView) -> TopologyView {
        TopologyView {
            config: new,
            since: Seq::new(
                new.components.len(),
                |i: int|
                    if stays(self.config.components, self.forced, new.components[i]) {
                        self.since[position_of(self.config.components, new.components[i].key)]
                    } else {
                        next_epoch(self.epoch)
                    },
            ),
            epoch: next_epoch(self.epoch),
            forced: self.forced,
        }
    }
}

impl View for RunningTopology {
    type V = TopologyView;

    closed spec fn view(&self) -> TopologyView {
        TopologyView {
            config: self.config@,
            since: self.since@,
            epoch: self.epoch,
            forced: self.forced.deep_view().to_set(),
        }
    }
}

impl DeepView for RunningTopology {
    type V = TopologyView;

    open spec fn deep_view(&self) -> TopologyView {
        self@
    }
}

impl RunningTopology {
    /// What holds of every running topology.
    #[verifier::type_invariant]
    pub open spec fn well_formed(self) -> bool {
        self@.wf()
    }

    /// Starts a topology from `config`: every component is started in
    /// epoch 0, and no component is marked for a forced restart.
    pub fn start(config: Config) -> (topology: RunningTopology)
        ensures
            topology@ == TopologyView::started(config@),
    {
        proof {
            use_type_invariant(&config);
        }
        let mut since: Vec<u64> = Vec::new();
        let mut i: usize = 0;
        let n = config.components().len();
        assert(n == config@.components.len());
        while i < n
            invariant
                i <= n,
                since.len() == i,
                forall|k: int| 0 <= k < i ==> #[trigger] since@[k] == 0,
            decreases n - i,
        {
            since.push(0);
            i += 1;
        }
        let forced: Vec<String> = Vec::new();
        assert(forced.deep_view().to_set() =~= Set::empty());
        assert(since@ =~= TopologyView::started(config@).since);
        RunningTopology { config, since, epoch: 0, forced }
    }

    /// A copy of the topology.
    pub fn duplicate(&self) -> (copy: RunningTopology)
        ensures
            copy@ == self@,
    {
        proof {
            use_type_invariant(self);
        }
        let mut since: Vec<u64> = Vec::new();
        let mut i: usize = 0;
        while i < self.since.len()
            invariant
                i <= self.since.len(),
                since@ == self.since@.take(i as int),
            decreases self.since.len() - i,
        {
            since.push(self.since[i]);
            assert(since@ =~= self.since@.take(i + 1));
            i += 1;
        }
        assert(self.since@.take(self.since.len() as int) =~= self.since@);
        let forced = copy_strings(&self.forced);
        assert(forced.deep_view() =~= self.forced.deep_view());
        RunningTopology { config: self.config.duplicate(), since, epoch: self.epoch, forced }
    }

    /// The configuration that runs.
    pub fn config(&self) -> (config: &Config)
        ensures
            config@ == self@.config,
    {
        &self.config
    }

    /// The current epoch: the number of reloads applied so far.
    pub fn epoch(&self) -> (epoch: u64)
        ensures
            epoch == self@.epoch,
    {
        self.epoch
    }

    /// Whether the topology holds at least one source.
    pub fn has_sources(&self) -> (found: bool)
        ensures
            found == self@.config.has_sources(),
    {
        self.config.has_sources()
    }

    /// The epoch in which the component `key` was last started, if it runs.
    pub fn started_in(&self, key: &String) -> (epoch: Option<u64>)
        ensures
            epoch == self@.started_in(key@),
    {
        proof {
            use_type_invariant(self);
        }
        let components = self.config.components();
        let ghost cs = self@.config.components;
        assert(forall|k: int| 0 <= k < cs.len() ==> (#[trigger] cs[k]).key == components@[k].key@);
        match find_component(components, key, components.len()) {
            Some(i) => {
                proof {
                    lemma_found_first(cs, key@, i as int);
                }
                Some(self.since[i])
            },
            None => None,
        }
    }

    /// Whether the component `key` is marked for a forced restart.
    pub fn is_forced(&self, key: &String) -> (forced: bool)
        ensures
            forced == self@.forced.contains(key@),
    {
        contains_string(&self.forced, key)
    }

    /// Marks the components named in `keys` for a forced restart, in
    /// addition to those that are marked already. The marks stay until the
    /// set is replaced.
    pub fn extend_reload_set(&mut self, keys: Vec<String>)
        ensures
            final(self)@ == (TopologyView {
                forced: old(self)@.forced.union(keys.deep_view().to_set()),
                ..old(self)@
            }),
    {
        proof {
            use_type_invariant(&*self);
        }
        let ghost before = self@.forced;
        let ghost all = keys.deep_view();
        let mut forced = copy_strings(&self.forced);
        assert(forced.deep_view() =~= self.forced.deep_view());
        assert(all.take(0).to_set() =~= Set::empty());
        let mut i: usize = 0;
        while i < keys.len()
            invariant
                i <= keys.len(),
                all == keys.deep_view(),
                forced.deep_view().to_set() =~= before.union(all.take(i as int).to_set()),
            decreases keys.len() - i,
        {
            let ghost marked = forced.deep_view();
            if !contains_string(&forced, &keys[i]) {
                forced.push(keys[i].clone());
                assert(forced.deep_view() =~= marked.push(all[i as int]));
            }
            assert(all.take(i + 1) =~= all.take(i as int).push(all[i as int]));
            proof {
                all.take(i as int).lemma_push_to_set_commute(all[i as int]);
                marked.lemma_push_to_set_commute(all[i as int]);
            }
            i += 1;
        }
        assert(all.take(keys.len() as int) =~= all);
        self.forced = forced;
    }

    /// Replaces the set of components marked for a forced restart.
    pub fn replace_reload_set(&mut self, keys: Vec<String>)
        ensures
            final(self)@ == (TopologyView { forced: keys.deep_view().to_set(), ..old(self)@ }),
    {
        proof {
            use_type_invariant(&*self);
        }
        self.forced = keys;
    }

    /// What a reload to `new` has to stop, start and restart.
    pub fn diff_to(&self, new: &Config) -> (diff: ConfigDiff)
        ensures
            diff@ == self@.diff_to(new@),
    {
        compute_diff(&self.config, new, &self.forced)
    }

    /// Replaces the running configuration by `new` and begins the next
    /// epoch. The components that stay keep the epoch of their start; those
    /// that arrive or are restarted belong to the new epoch.
    pub fn swap_in(&mut self, new: Config)
        ensures
            final(self)@ == old(self)@.reloaded(new@),
    {
        proof {
            use_type_invariant(&*self);
            use_type_invariant(&new);
        }
        let epoch: u64 = if self.epoch < u64::MAX {
            self.epoch + 1
        } else {
            self.epoch
        };
        let ghost target = self@.reloaded(new@);
        let ghost ocs = self@.config.components;
        let ghost ncs = new@.components;
        let mut since: Vec<u64> = Vec::new();
        let mut n: usize = 0;
        let olds = self.config.components();
        let news = new.components();
        while n < news.len()
            invariant
                n <= news.len(),
                self@.wf(),
                ocs == olds.deep_view(),
                ncs == news.deep_view(),
                ocs == self@.config.components,
                target == self@.reloaded(new@),
                ncs == new@.components,
                epoch == next_epoch(self.epoch),
                since.len() == n,
                forall|k: int| 0 <= k < n ==> #[trigger] since@[k] == target.since[k],
                forall|k: int| 0 <= k < n ==> #[trigger] since@[k] <= epoch,
            decreases news.len() - n,
        {
            let found = find_component(olds, &news[n].key, olds.len());
            proof {
                assert(forall|k: int|
                    0 <= k < ocs.len() ==> (#[trigger] ocs[k]).key == olds@[k].key@);
                assert(ncs[n as int] == news@[n as int]@);
            }
            let mut started: u64 = epoch;
            if let Some(j) = found {
                proof {
                    lemma_found_first(ocs, ncs[n as int].key, j as int);
                    assert(ocs[j as int] == olds@[j as int]@);
                }
                if olds[j].same_as(&news[n]) && !contains_string(&self.forced, &news[n].key) {
                    started = self.since[j];
                }
            }
            since.push(started);
            n += 1;
        }
        assert(since@ =~= target.since);
        let forced = copy_strings(&self.forced);
        assert(forced.deep_view() =~= self.forced.deep_view());
        *self = RunningTopology { config: new, since, epoch, forced };
    }
}

} // verus!
