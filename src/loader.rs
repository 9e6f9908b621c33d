use crate::state::{ImageLoadState, LoadState};
use crate::strategy::LoadStrategy;
use vstd::prelude::*;

verus! {

/// The batch state that one tick's per-handle states add up to: loaded once every handle is
/// resolved (loaded or failed), loading once any handle has left `NotLoaded`, and not loaded
/// otherwise. No handles at all never count as loaded.
pub open spec fn aggregate(states: Seq<LoadState>) -> LoadState {
    if states.len() > 0 && forall|i: int| 0 <= i < states.len() ==> #[trigger] states[i].resolved() {
        LoadState::Loaded
    } else if exists|i: int| 0 <= i < states.len() && #[trigger] states[i] != LoadState::NotLoaded {
        LoadState::Loading
    } else {
        LoadState::NotLoaded
    }
}

/// Tracks the handles issued for one strategy and the aggregate state they add up to.
///
/// Polling stops for good once the batch is settled: loaded, failed as a whole folder, or an
/// explicit list with no entries (which thus stays `NotLoaded` and never queries anything).
pub struct ImageLoader {
    strategy: LoadStrategy,
    load_state: ImageLoadState,
    reported: Vec<bool>,
}

impl ImageLoader {
    pub closed spec fn strategy(&self) -> LoadStrategy {
        self.strategy
    }

    pub closed spec fn state(&self) -> LoadState {
        self.load_state@
    }

    /// For each entry of an explicit list, whether its failure has been reported already.
    pub closed spec fn reported(&self) -> Seq<bool> {
        self.reported@
    }

    pub open spec fn wf(&self) -> bool {
        &&& self.reported().len() == self.strategy().entries().len()
        &&& self.strategy().is_explicit() ==> self.state() != LoadState::Failed
        &&& self.strategy().is_explicit() && self.strategy().entries().len() == 0 ==> self.state()
            == LoadState::NotLoaded
    }

    pub open spec fn spec_is_settled(&self) -> bool {
        ||| self.state() == LoadState::Loaded
        ||| self.state() == LoadState::Failed
        ||| self.strategy().is_explicit() && self.strategy().entries().len() == 0
    }

    /// The aggregate state after a poll that observed `observed`, one state per handle.
    pub open spec fn next_state(&self, observed: Seq<LoadState>) -> LoadState {
        if self.spec_is_settled() {
            self.state()
        } else if self.strategy().is_explicit() {
            aggregate(observed)
        } else {
            observed[0]
        }
    }

    /// Whether a poll that observed `observed` reports the failure of entry `i`:
    /// it has failed and was not reported before.
    pub open spec fn newly_failed(&self, observed: Seq<LoadState>, i: int) -> bool {
        &&& !self.spec_is_settled()
        &&& self.strategy().is_explicit()
        &&& observed[i] == LoadState::Failed
        &&& !self.reported()[i]
    }

    pub open spec fn next_reported(&self, observed: Seq<LoadState>) -> Seq<bool> {
        Seq::new(
            self.reported().len(),
            |i: int| self.reported()[i] || self.newly_failed(observed, i),
        )
    }

    /// Starts tracking the handles of `strategy`, with nothing loaded or reported yet.
    pub fn new(strategy: LoadStrategy) -> (r: Self)
        ensures
            r.wf(),
            r.strategy() == strategy,
            r.state() == LoadState::NotLoaded,
            r.reported() == Seq::new(strategy.entries().len(), |i: int| false),
    {
        let n = match &strategy {
            LoadStrategy::FolderBulk { .. } => 0,
            LoadStrategy::ExplicitList { entries, .. } => entries.len(),
        };
        let mut reported: Vec<bool> = Vec::new();
        let mut i: usize = 0;
        while i < n
            invariant
                i <= n,
                reported@ == Seq::new(i as nat, |j: int| false),
            decreases n - i,
        {
            reported.push(false);
            i = i + 1;
            proof {
                assert(reported@ =~= Seq::new(i as nat, |j: int| false));
            }
        }
        proof {
            assert(reported@ =~= Seq::new(strategy.entries().len(), |j: int| false));
        }
        ImageLoader { strategy, load_state: ImageLoadState::default(), reported }
    }

    pub fn load_strategy(&self) -> (r: &LoadStrategy)
        ensures
            *r == self.strategy(),
    {
        &self.strategy
    }

    pub fn load_state(&self) -> (r: &ImageLoadState)
        ensures
            r@ == self.state(),
    {
        &self.load_state
    }

    /// Whether polling is over; the scheduler polls only while this is false.
    pub fn is_settled(&self) -> (r: bool)
        ensures
            r == self.spec_is_settled(),
    {
        self.load_state.get().is_resolved() || match &self.strategy {
            LoadStrategy::FolderBulk { .. } => false,
            LoadStrategy::ExplicitList { entries, .. } => entries.len() == 0,
        }
    }

    /// One poll: takes the state that each handle reports now (in handle order), updates the
    /// aggregate state, and returns, in increasing order, the entries whose failure is seen
    /// for the first time, so that each failure is reported exactly once.
    ///
    /// A settled loader is left as it is.
    pub fn update_image_assets_load_state(&mut self, observed: &Vec<LoadState>) -> (newly_failed:
        Vec<usize>)
        requires
            old(self).wf(),
            observed@.len() == old(self).strategy().spec_handle_count(),
        ensures
            final(self).wf(),
            final(self).strategy() == old(self).strategy(),
            final(self).state() == old(self).next_state(observed@),
            final(self).reported() == old(self).next_reported(observed@),
            forall|k: int|
                0 <= k < newly_failed@.len() ==> {
                    &&& newly_failed@[k] < old(self).reported().len()
                    &&& old(self).newly_failed(observed@, #[trigger] newly_failed@[k] as int)
                },
            forall|k1: int, k2: int|
                0 <= k1 < k2 < newly_failed@.len() ==> newly_failed@[k1] < newly_failed@[k2],
            forall|i: int|
                0 <= i < old(self).reported().len() && old(self).newly_failed(observed@, i)
                    ==> newly_failed@.contains(i as usize),
    {
        let mut newly_failed: Vec<usize> = Vec::new();
        if self.is_settled() {
            proof {
                assert(self.reported@ =~= old(self).next_reported(observed@));
            }
            return newly_failed;
        }
        if !self.strategy.is_explicit_list() {
            self.load_state = ImageLoadState::new(observed[0]);
            proof {
                assert(self.reported@ =~= old(self).next_reported(observed@));
            }
            return newly_failed;
        }
        let ghost pre = *old(self);
        let n = observed.len();
        let mut all_resolved = true;
        let mut any_started = false;
        let mut i: usize = 0;
        while i < n
            invariant
                pre == *old(self),
                !pre.spec_is_settled(),
                pre.strategy().is_explicit(),
                n == observed@.len(),
                n == pre.reported().len(),
                i <= n,
                self.strategy == pre.strategy(),
                self.load_state@ == pre.state(),
                self.reported@.len() == n,
                forall|j: int|
                    0 <= j < i ==> #[trigger] self.reported@[j] == pre.next_reported(observed@)[j],
                forall|j: int| i <= j < n ==> #[trigger] self.reported@[j] == pre.reported()[j],
                all_resolved == forall|j: int| 0 <= j < i ==> #[trigger] observed@[j].resolved(),
                any_started == exists|j: int|
                    0 <= j < i && #[trigger] observed@[j] != LoadState::NotLoaded,
                forall|k: int|
                    0 <= k < newly_failed@.len() ==> {
                        &&& newly_failed@[k] < i
                        &&& pre.newly_failed(observed@, #[trigger] newly_failed@[k] as int)
                    },
                forall|k1: int, k2: int|
                    0 <= k1 < k2 < newly_failed@.len() ==> newly_failed@[k1] < newly_failed@[k2],
                forall|j: int|
                    0 <= j < i && pre.newly_failed(observed@, j) ==> newly_failed@.contains(
                        j as usize,
                    ),
            decreases n - i,
        {
            let s = observed[i];
            if !s.is_resolved() {
                all_resolved = false;
            }
            if !matches!(s, LoadState::NotLoaded) {
                any_started = true;
            }
            if s.is_failed() && !self.reported[i] {
                let ghost before = newly_failed@;
                self.reported.set(i, true);
                newly_failed.push(i);
                proof {
                    assert forall|j: int|
                        0 <= j < i && pre.newly_failed(observed@, j) implies newly_failed@.contains(
                        j as usize,
                    ) by {
                        let k = choose|k: int| 0 <= k < before.len() && before[k] == j as usize;
                        assert(newly_failed@[k] == j as usize);
                    }
                    assert(newly_failed@[newly_failed@.len() - 1] == i);
                }
            }
            i = i + 1;
            proof {
                assert forall|j: int|
                    0 <= j < i && pre.newly_failed(observed@, j) implies newly_failed@.contains(
                    j as usize,
                ) by {
                    if j == i - 1 {
                        assert(newly_failed@[newly_failed@.len() - 1] == j as usize);
                    }
                }
            }
        }
        let next = if all_resolved {
            LoadState::Loaded
        } else if any_started {
            LoadState::Loading
        } else {
            LoadState::NotLoaded
        };
        self.load_state = ImageLoadState::new(next);
        proof {
            assert(self.reported@ =~= pre.next_reported(observed@));
        }
        newly_failed
    }
}

/// Completion order does not matter: per-handle states that are a permutation of one another
/// add up to the same batch state.
pub proof fn lemma_aggregate_permutation(a: Seq<LoadState>, b: Seq<LoadState>)
    requires
        a.to_multiset() == b.to_multiset(),
    ensures
        aggregate(a) == aggregate(b),
{
    a.to_multiset_ensures();
    b.to_multiset_ensures();
    assert(a.len() == b.len());
    assert forall|x: LoadState| a.contains(x) <==> b.contains(x) by {
        assert(a.contains(x) <==> a.to_multiset().count(x) > 0);
        assert(b.contains(x) <==> b.to_multiset().count(x) > 0);
    }
    assert((forall|i: int| 0 <= i < a.len() ==> #[trigger] a[i].resolved()) <==> (forall|i: int|
        0 <= i < b.len() ==> #[trigger] b[i].resolved())) by {
        if forall|i: int| 0 <= i < a.len() ==> #[trigger] a[i].resolved() {
            assert forall|i: int| 0 <= i < b.len() implies #[trigger] b[i].resolved() by {
                assert(b.contains(b[i]));
            }
        }
        if forall|i: int| 0 <= i < b.len() ==> #[trigger] b[i].resolved() {
            assert forall|i: int| 0 <= i < a.len() implies #[trigger] a[i].resolved() by {
                assert(a.contains(a[i]));
            }
        }
    }
    assert((exists|i: int| 0 <= i < a.len() && #[trigger] a[i] != LoadState::NotLoaded) <==> (
    exists|i: int| 0 <= i < b.len() && #[trigger] b[i] != LoadState::NotLoaded)) by {
        if exists|i: int| 0 <= i < a.len() && #[trigger] a[i] != LoadState::NotLoaded {
            let i = choose|i: int| 0 <= i < a.len() && #[trigger] a[i] != LoadState::NotLoaded;
            assert(a.contains(a[i]));
            let j = choose|j: int| 0 <= j < b.len() && b[j] == a[i];
            assert(b[j] != LoadState::NotLoaded);
        }
        if exists|i: int| 0 <= i < b.len() && #[trigger] b[i] != LoadState::NotLoaded {
            let i = choose|i: int| 0 <= i < b.len() && #[trigger] b[i] != LoadState::NotLoaded;
            assert(b.contains(b[i]));
            let j = choose|j: int| 0 <= j < a.len() && a[j] == b[i];
            assert(a[j] != LoadState::NotLoaded);
        }
    }
}

/// An explicit list with no entries is settled from the start: it issues no queries, and its
/// batch state stays `NotLoaded` whatever a poll would observe.
pub proof fn lemma_empty_list_stays_not_loaded(t: ImageLoader, observed: Seq<LoadState>)
    requires
        t.wf(),
        t.strategy().is_explicit(),
        t.strategy().entries().len() == 0,
    ensures
        t.spec_is_settled(),
        t.strategy().spec_handle_count() == 0,
        t.state() == LoadState::NotLoaded,
        t.next_state(observed) == LoadState::NotLoaded,
        t.next_reported(observed) == t.reported(),
{
    assert(t.next_reported(observed) =~= t.reported());
}

/// A failed handle never blocks an explicit list: once it has failed and every other handle
/// has resolved, the next poll finds the batch loaded.
pub proof fn lemma_failed_handle_does_not_block(
    t: ImageLoader,
    observed: Seq<LoadState>,
    h: int,
)
    requires
        t.wf(),
        t.strategy().is_explicit(),
        observed.len() == t.strategy().entries().len(),
        0 <= h < observed.len(),
        observed[h] == LoadState::Failed,
        forall|i: int| 0 <= i < observed.len() && i != h ==> #[trigger] observed[i].resolved(),
    ensures
        t.next_state(observed) == LoadState::Loaded,
{
    assert(observed[h].resolved());
}

/// Loaded is final: a loaded batch is settled, and a further poll changes nothing,
/// whatever it observes.
pub proof fn lemma_loaded_is_final(t: ImageLoader, observed: Seq<LoadState>)
    requires
        t.wf(),
        t.state() == LoadState::Loaded,
    ensures
        t.spec_is_settled(),
        t.next_state(observed) == LoadState::Loaded,
        t.next_reported(observed) == t.reported(),
{
    assert(t.next_reported(observed) =~= t.reported());
}

/// The outcome of an explicit list does not depend on the order in which its handles
/// completed: whatever polls two loaders of the same list went through, once every handle has
/// resolved the next poll leaves both in the same state, which is `Loaded` for a list that is
/// not empty.
pub proof fn lemma_final_state_independent_of_order(
    t1: ImageLoader,
    t2: ImageLoader,
    observed: Seq<LoadState>,
)
    requires
        t1.wf(),
        t2.wf(),
        t1.strategy() == t2.strategy(),
        t1.strategy().is_explicit(),
        observed.len() == t1.strategy().entries().len(),
        forall|i: int| 0 <= i < observed.len() ==> #[trigger] observed[i].resolved(),
    ensures
        t1.next_state(observed) == t2.next_state(observed),
        observed.len() > 0 ==> t1.next_state(observed) == LoadState::Loaded,
{
}

} // verus!
