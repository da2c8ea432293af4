//! One run over the demos that are old enough.
//!
//! The catalog is asked for the demos on the source backend from before the
//! cutoff, oldest first. They are transferred one at a time, in that order,
//! and the first failure ends the run.

use crate::catalog::{Demo, DemoView, ListOrder, ListQuery};
use crate::config::Config;
use crate::error::{Error, ErrorView};
use crate::transfer::result_view;
use vstd::prelude::*;

verus! {

/// Nanoseconds in a second.
pub const NANOS_PER_SECOND: i128 = 1000000000;

/// The page of the catalog's answer that a run works on.
pub const FIRST_PAGE: u32 = 1;

/// The moment `age` seconds before `now`; both moments are in nanoseconds
/// since the epoch.
pub open spec fn cutoff_of(now: int, age: int) -> int {
    now - age * 1000000000
}

/// The moment `age` seconds before `now`, in nanoseconds since the epoch:
/// demos from before it are old enough to be moved. `None` where that moment
/// lies before every moment that can be written down.
pub fn cutoff(now: i128, age: u64) -> (cutoff: Option<i128>)
    ensures
        cutoff is Some <==> cutoff_of(now as int, age as int) >= i128::MIN,
        cutoff matches Some(moment) ==> moment == cutoff_of(now as int, age as int),
{
    let span: i128 = age as i128 * NANOS_PER_SECOND;
    now.checked_sub(span)
}

/// What to ask the catalog for at `now`: the demos on the configured source
/// backend from before the cutoff, oldest first. `None` where the cutoff
/// cannot be written down.
pub fn list_query(config: &Config, now: i128) -> (query: Option<ListQuery>)
    ensures
        query is Some <==> cutoff_of(now as int, config.migrate.age as int) >= i128::MIN,
        query matches Some(q) ==> {
            &&& q.before == cutoff_of(now as int, config.migrate.age as int)
            &&& q.order == ListOrder::Ascending
            &&& q.backend@ == config.source.backend@
            &&& q.page == FIRST_PAGE
        },
{
    match cutoff(now, config.migrate.age) {
        Some(before) => Some(
            ListQuery {
                before,
                order: ListOrder::Ascending,
                backend: config.source.backend.clone(),
                page: FIRST_PAGE,
            },
        ),
        None => None,
    }
}

/// A run over the demos that the catalog listed: the demos in the order of
/// the list, how many of them have been moved, and the failure that ended
/// the run, if one did.
#[derive(Debug, PartialEq, Eq)]
pub struct Batch {
    demos: Vec<Demo>,
    position: usize,
    failure: Option<Error>,
}

/// A [`Batch`] as a mathematical value.
pub struct BatchView {
    pub demos: Seq<DemoView>,
    pub position: nat,
    pub failure: Option<ErrorView>,
}

impl BatchView {
    /// No more demos count as moved than the list holds.
    pub open spec fn well_formed(self) -> bool {
        self.position <= self.demos.len()
    }

    /// A run over `demos` of which nothing has been done.
    pub open spec fn start(demos: Seq<DemoView>) -> BatchView {
        BatchView { demos, position: 0, failure: None }
    }

    /// The demo to transfer now; `None` once the run has ended.
    pub open spec fn current(self) -> Option<DemoView> {
        if self.failure is None && self.position < self.demos.len() {
            Some(self.demos[self.position as int])
        } else {
            None
        }
    }

    /// The run after the transfer of the current demo ended with `outcome`:
    /// the next demo is current where it ended well, and the run has ended
    /// where it did not. A run that has ended stays as it is.
    pub open spec fn record(self, outcome: Result<(), ErrorView>) -> BatchView {
        if self.current() is None {
            self
        } else {
            match outcome {
                Ok(_) => BatchView { position: self.position + 1, ..self },
                Err(error) => BatchView { failure: Some(error), ..self },
            }
        }
    }

    /// How the run ended; `None` while a demo is current.
    pub open spec fn result(self) -> Option<Result<(), ErrorView>> {
        match self.failure {
            Some(error) => Some(Err(error)),
            None => if self.position >= self.demos.len() {
                Some(Ok(()))
            } else {
                None
            },
        }
    }

    /// The run after each of `outcomes` was recorded in turn.
    pub open spec fn record_all(self, outcomes: Seq<Result<(), ErrorView>>) -> BatchView
        decreases outcomes.len(),
    {
        if outcomes.len() == 0 {
            self
        } else {
            self.record(outcomes[0]).record_all(outcomes.drop_first())
        }
    }
}

impl View for Batch {
    type V = BatchView;

    closed spec fn view(&self) -> BatchView {
        BatchView {
            demos: self.demos@.map_values(|demo: Demo| demo@),
            position: self.position as nat,
            failure: match self.failure {
                Some(error) => Some(error@),
                None => None,
            },
        }
    }
}

impl Batch {
    /// No more demos count as moved than the list holds.
    #[verifier::type_invariant]
    spec fn well_formed(&self) -> bool {
        self.position <= self.demos@.len()
    }

    /// A run over `demos`, in their order, of which nothing has been done.
    pub fn new(demos: Vec<Demo>) -> (batch: Batch)
        ensures
            batch@ == BatchView::start(demos@.map_values(|demo: Demo| demo@)),
            batch@.well_formed(),
    {
        Batch { demos, position: 0, failure: None }
    }

    /// The demo to transfer now; `None` once the run has ended.
    pub fn current(&self) -> (demo: Option<&Demo>)
        ensures
            demo is Some <==> self@.current() is Some,
            demo matches Some(d) ==> self@.current() == Some(d@),
    {
        if self.failure.is_none() && self.position < self.demos.len() {
            Some(&self.demos[self.position])
        } else {
            None
        }
    }

    /// Takes the outcome of the current demo's transfer.
    pub fn record(&mut self, outcome: Result<(), Error>)
        ensures
            final(self)@ == old(self)@.record(result_view(outcome)),
            final(self)@.well_formed(),
    {
        proof {
            use_type_invariant(&*self);
        }
        if self.failure.is_none() && self.position < self.demos.len() {
            match outcome {
                Ok(_) => {
                    self.position = self.position + 1;
                },
                Err(error) => {
                    self.failure = Some(error);
                },
            }
        }
    }

    /// How many demos have been moved: as many as stand before the current
    /// one in the list.
    pub fn moved(&self) -> (count: usize)
        ensures
            count == self@.position,
            count <= self@.demos.len(),
    {
        proof {
            use_type_invariant(self);
        }
        self.position
    }

    /// How the run ended; `None` while a demo is current.
    pub fn into_result(self) -> (result: Option<Result<(), Error>>)
        ensures
            result is Some <==> self@.result() is Some,
            result matches Some(r) ==> self@.result() == Some(result_view(r)),
    {
        match self.failure {
            Some(error) => Some(Err(error)),
            None => if self.position >= self.demos.len() {
                Some(Ok(()))
            } else {
                None
            },
        }
    }
}

/// Recording keeps a run well formed.
pub proof fn lemma_record_keeps_well_formed(batch: BatchView, outcome: Result<(), ErrorView>)
    requires
        batch.well_formed(),
    ensures
        batch.record(outcome).well_formed(),
{
}

/// A run is over exactly when no demo is current.
pub proof fn lemma_ended_or_current(batch: BatchView)
    ensures
        batch.result() is Some <==> batch.current() is None,
{
}

/// The first failure ends the run: once the transfer of the current demo has
/// failed, no demo is current, the failure is the run's result, no further
/// demo counts as moved, and whatever is recorded after it changes nothing.
pub proof fn lemma_first_failure_ends_the_run(
    batch: BatchView,
    error: ErrorView,
    later: Result<(), ErrorView>,
)
    requires
        batch.current() is Some,
    ensures
        batch.record(Err(error)).current() is None,
        batch.record(Err(error)).result() == Some(Err::<(), ErrorView>(error)),
        batch.record(Err(error)).position == batch.position,
        batch.record(Err(error)).record(later) == batch.record(Err(error)),
{
}

/// The demos are taken in the order of the list, one at a time: after a
/// transfer that ended well the next demo of the list is current, and the
/// run has ended well where there is none.
pub proof fn lemma_in_list_order(batch: BatchView)
    requires
        batch.current() is Some,
    ensures
        batch.current() == Some(batch.demos[batch.position as int]),
        batch.record(Ok(())).position == batch.position + 1,
        batch.record(Ok(())).demos == batch.demos,
        batch.position + 1 < batch.demos.len() ==> batch.record(Ok(())).current() == Some(
            batch.demos[batch.position as int + 1],
        ),
        batch.position + 1 == batch.demos.len() ==> batch.record(Ok(())).result() == Some(
            Ok::<(), ErrorView>(()),
        ),
{
}

/// A run whose first `moved` transfers end well and whose next one fails has
/// moved exactly those demos and ends with that failure, whatever is
/// recorded after it.
pub proof fn lemma_run_stops_at_first_failure(
    demos: Seq<DemoView>,
    outcomes: Seq<Result<(), ErrorView>>,
    moved: int,
)
    requires
        0 <= moved < demos.len(),
        moved < outcomes.len(),
        forall|i: int| 0 <= i < moved ==> outcomes[i] is Ok,
        outcomes[moved] is Err,
    ensures
        BatchView::start(demos).record_all(outcomes).position == moved,
        BatchView::start(demos).record_all(outcomes).result() == Some(
            Err::<(), ErrorView>(outcomes[moved]->Err_0),
        ),
{
    lemma_record_all(BatchView::start(demos), outcomes, moved);
}

/// A run in which every transfer ends well moves every demo of the list and
/// ends well.
pub proof fn lemma_run_moves_all(demos: Seq<DemoView>, outcomes: Seq<Result<(), ErrorView>>)
    requires
        outcomes.len() == demos.len(),
        forall|i: int| 0 <= i < outcomes.len() ==> outcomes[i] is Ok,
    ensures
        BatchView::start(demos).record_all(outcomes).position == demos.len(),
        BatchView::start(demos).record_all(outcomes).result() == Some(Ok::<(), ErrorView>(())),
{
    lemma_record_all(BatchView::start(demos), outcomes, outcomes.len() as int);
}

/// `record_all` from any moment of a run that has not failed: the first
/// `good` outcomes are taken as moves, and a failure behind them, if the
/// list has a demo left for it, ends the run.
proof fn lemma_record_all(batch: BatchView, outcomes: Seq<Result<(), ErrorView>>, good: int)
    requires
        batch.failure is None,
        0 <= good <= outcomes.len(),
        batch.position + good <= batch.demos.len(),
        forall|i: int| 0 <= i < good ==> outcomes[i] is Ok,
        good < outcomes.len() ==> outcomes[good] is Err && batch.position + good
            < batch.demos.len(),
    ensures
        batch.record_all(outcomes).position == batch.position + good,
        batch.record_all(outcomes).demos == batch.demos,
        good == outcomes.len() ==> batch.record_all(outcomes).failure is None,
        good < outcomes.len() ==> batch.record_all(outcomes).failure == Some(
            outcomes[good]->Err_0,
        ),
    decreases outcomes.len(),
{
    if outcomes.len() > 0 {
        let rest = outcomes.drop_first();
        if good > 0 {
            lemma_record_all(batch.record(outcomes[0]), rest, good - 1);
        } else {
            lemma_ended_stays(batch.record(outcomes[0]), rest);
        }
    }
}

/// A run that has failed stays as it is, whatever is recorded.
proof fn lemma_ended_stays(batch: BatchView, outcomes: Seq<Result<(), ErrorView>>)
    requires
        batch.failure is Some,
    ensures
        batch.record_all(outcomes) == batch,
    decreases outcomes.len(),
{
    if outcomes.len() > 0 {
        lemma_ended_stays(batch, outcomes.drop_first());
    }
}

} // verus!
