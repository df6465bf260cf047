//! The rebuild coordinator: one build at a time, in the order in which the
//! batches arrived, and a reload only for a build that succeeded.
//!
//! The coordinator does not run the build pipeline. It says when a build is
//! to start, and is told how each build ended.

use crate::change::ChangeBatch;
use crate::error::Error;
use vstd::prelude::*;

verus! {

/// What follows from the end of a build.
#[derive(Debug, PartialEq, Eq)]
pub enum Verdict {
    /// The build succeeded: every client is told to reload.
    Reload,
    /// The build failed: the failure is logged with the path that had
    /// triggered the build, and nothing else happens.
    Report { path: String, message: String },
}

/// The view of a `Verdict`.
pub enum VerdictView {
    Reload,
    Report { path: Seq<char>, message: Seq<char> },
}

impl View for Verdict {
    type V = VerdictView;

    open spec fn view(&self) -> VerdictView {
        match self {
            Verdict::Reload => VerdictView::Reload,
            Verdict::Report { path, message } => VerdictView::Report {
                path: path@,
                message: message@,
            },
        }
    }
}

/// The end of a build: what follows from it, and the path that triggers the
/// next build, if a batch was waiting for this one to end.
#[derive(Debug, PartialEq, Eq)]
pub struct Completion {
    pub verdict: Verdict,
    pub next: Option<String>,
}

/// The view of a `Completion`.
pub struct CompletionView {
    pub verdict: VerdictView,
    pub next: Option<Seq<char>>,
}

impl View for Completion {
    type V = CompletionView;

    open spec fn view(&self) -> CompletionView {
        CompletionView {
            verdict: self.verdict@,
            next: match self.next {
                Some(path) => Some(path@),
                None => None,
            },
        }
    }
}

/// The view of a completion that may be missing.
pub open spec fn completion_view(completion: Option<Completion>) -> Option<CompletionView> {
    match completion {
        Some(c) => Some(c@),
        None => None,
    }
}

/// The view of a path that may be missing.
pub open spec fn path_view(path: Option<String>) -> Option<Seq<char>> {
    match path {
        Some(p) => Some(p@),
        None => None,
    }
}

/// What the coordinator knows between two inputs.
pub struct CoordinatorState {
    /// The batch whose build is running.
    pub building: Option<Seq<Seq<char>>>,
    /// The batches that arrived while a build was running, oldest first.
    pub queued: Seq<Seq<Seq<char>>>,
}

impl CoordinatorState {
    /// No build is running and no batch is waiting.
    pub open spec fn idle() -> CoordinatorState {
        CoordinatorState { building: None, queued: Seq::empty() }
    }

    /// Batches wait only while a build is running, and no batch is empty.
    pub open spec fn wf(self) -> bool {
        &&& self.building is None ==> self.queued.len() == 0
        &&& self.building matches Some(batch) ==> batch.len() > 0
        &&& forall|i: int| 0 <= i < self.queued.len() ==> (#[trigger] self.queued[i]).len() > 0
    }

    /// Every batch that has arrived and whose build has not ended, oldest
    /// first.
    pub open spec fn backlog(self) -> Seq<Seq<Seq<char>>> {
        match self.building {
            Some(batch) => seq![batch] + self.queued,
            None => self.queued,
        }
    }

    /// A batch arrives. Its build starts at once if none is running: the
    /// second component is then the path that triggers it. Otherwise the
    /// batch waits behind those that arrived before it.
    pub open spec fn submit(self, batch: Seq<Seq<char>>) -> (CoordinatorState, Option<Seq<char>>) {
        if self.building is None {
            (CoordinatorState { building: Some(batch), ..self }, Some(batch[0]))
        } else {
            (CoordinatorState { queued: self.queued.push(batch), ..self }, None)
        }
    }

    /// What follows from the end of a build that `trigger` had started.
    pub open spec fn verdict(trigger: Seq<char>, outcome: Result<(), Error>) -> VerdictView {
        match outcome {
            Ok(_) => VerdictView::Reload,
            Err(error) => VerdictView::Report { path: trigger, message: error.text() },
        }
    }

    /// The running build ends. The oldest waiting batch, if there is one,
    /// is built next. Nothing happens if no build was running.
    pub open spec fn complete(self, outcome: Result<(), Error>) -> (
        CoordinatorState,
        Option<CompletionView>,
    ) {
        match self.building {
            None => (self, None),
            Some(batch) => {
                let verdict = Self::verdict(batch[0], outcome);
                if self.queued.len() == 0 {
                    (
                        CoordinatorState { building: None, queued: self.queued },
                        Some(CompletionView { verdict, next: None }),
                    )
                } else {
                    (
                        CoordinatorState {
                            building: Some(self.queued[0]),
                            queued: self.queued.drop_first(),
                        },
                        Some(CompletionView { verdict, next: Some(self.queued[0][0]) }),
                    )
                }
            },
        }
    }
}

/// What the coordinator is told: that a batch has arrived, or how the
/// running build has ended.
pub enum CoordinatorInput {
    Submit(Seq<Seq<char>>),
    Complete(Result<(), Error>),
}

impl CoordinatorState {
    /// The coordinator after one input, and the path that triggers the
    /// build that the input starts, if it starts one.
    pub open spec fn step(self, input: CoordinatorInput) -> (CoordinatorState, Option<Seq<char>>) {
        match input {
            CoordinatorInput::Submit(batch) => self.submit(batch),
            CoordinatorInput::Complete(outcome) => (
                self.complete(outcome).0,
                match self.complete(outcome).1 {
                    Some(completion) => completion.next,
                    None => None,
                },
            ),
        }
    }

    /// The coordinator after a run of inputs, with the paths that triggered
    /// the builds that were started on the way, in their order.
    pub open spec fn run(self, inputs: Seq<CoordinatorInput>) -> (
        CoordinatorState,
        Seq<Seq<char>>,
    )
        decreases inputs.len(),
    {
        if inputs.len() == 0 {
            (self, Seq::empty())
        } else {
            let (before, started) = self.run(inputs.drop_last());
            let (after, start) = before.step(inputs.last());
            (
                after,
                match start {
                    Some(path) => started.push(path),
                    None => started,
                },
            )
        }
    }
}

/// The batches that arrive in a run of inputs, in their order.
pub open spec fn arrivals(inputs: Seq<CoordinatorInput>) -> Seq<Seq<Seq<char>>>
    decreases inputs.len(),
{
    if inputs.len() == 0 {
        Seq::empty()
    } else {
        match inputs.last() {
            CoordinatorInput::Submit(batch) => arrivals(inputs.drop_last()).push(batch),
            CoordinatorInput::Complete(outcome) => arrivals(inputs.drop_last()),
        }
    }
}

/// The path that triggers the build of each batch: its first.
pub open spec fn triggers(batches: Seq<Seq<Seq<char>>>) -> Seq<Seq<char>> {
    Seq::new(batches.len(), |i: int| batches[i][0])
}

/// Decides when the build pipeline runs and what its result leads to.
pub struct RebuildCoordinator {
    building: Option<ChangeBatch>,
    queued: Vec<ChangeBatch>,
}

impl View for RebuildCoordinator {
    type V = CoordinatorState;

    closed spec fn view(&self) -> CoordinatorState {
        CoordinatorState {
            building: match self.building {
                Some(batch) => Some(batch@),
                None => None,
            },
            queued: Seq::new(self.queued@.len(), |i: int| self.queued@[i]@),
        }
    }
}

impl RebuildCoordinator {
    /// The state is one that `new`, `submit` and `complete` lead to.
    pub open spec fn wf(&self) -> bool {
        self@.wf()
    }

    /// A coordinator with nothing to do.
    pub fn new() -> (coordinator: RebuildCoordinator)
        ensures
            coordinator@ == CoordinatorState::idle(),
            coordinator.wf(),
    {
        let coordinator = RebuildCoordinator { building: None, queued: Vec::new() };
        assert(coordinator@.queued =~= Seq::empty());
        coordinator
    }

    /// Whether a build is running.
    pub fn is_building(&self) -> (building: bool)
        ensures
            building == self@.building is Some,
    {
        self.building.is_some()
    }

    /// The number of batches that wait for the running build to end.
    pub fn waiting(&self) -> (n: usize)
        ensures
            n == self@.queued.len(),
    {
        self.queued.len()
    }

    /// Takes a batch from the change detector. Returns the path to build
    /// for if the build of this batch is to start now.
    pub fn submit(&mut self, batch: ChangeBatch) -> (start: Option<String>)
        requires
            old(self).wf(),
            batch.wf(),
        ensures
            final(self)@ == old(self)@.submit(batch@).0,
            path_view(start) == old(self)@.submit(batch@).1,
            final(self).wf(),
    {
        if self.building.is_none() {
            let path = batch.first_path().clone();
            self.building = Some(batch);
            assert(self@.queued =~= old(self)@.queued);
            Some(path)
        } else {
            self.queued.push(batch);
            assert(self@.queued =~= old(self)@.queued.push(batch@));
            None
        }
    }

    /// Takes the result of the running build. Returns what follows from it,
    /// or nothing if no build was running.
    pub fn complete(&mut self, outcome: Result<(), Error>) -> (completion: Option<Completion>)
        requires
            old(self).wf(),
        ensures
            final(self)@ == old(self)@.complete(outcome).0,
            completion_view(completion) == old(self)@.complete(outcome).1,
            final(self).wf(),
    {
        match self.building.take() {
            None => {
                assert(self@.queued =~= old(self)@.queued);
                None
            },
            Some(batch) => {
                let verdict = match outcome {
                    Ok(_) => Verdict::Reload,
                    Err(error) => Verdict::Report {
                        path: batch.first_path().clone(),
                        message: error.message(),
                    },
                };
                if self.queued.len() == 0 {
                    assert(self@.queued =~= old(self)@.queued);
                    Some(Completion { verdict, next: None })
                } else {
                    let following = self.queued.remove(0);
                    assert(old(self)@.queued[0] == following@);
                    let path = following.first_path().clone();
                    self.building = Some(following);
                    assert(self@.queued =~= old(self)@.queued.drop_first());
                    Some(Completion { verdict, next: Some(path) })
                }
            },
        }
    }
}

/// No batch is dropped and none overtakes another: a batch that arrives
/// goes to the end of the backlog, and the end of a build takes the oldest
/// batch off it.
pub proof fn law_batches_keep_their_order(
    state: CoordinatorState,
    batch: Seq<Seq<char>>,
    outcome: Result<(), Error>,
)
    requires
        state.wf(),
    ensures
        state.submit(batch).0.backlog() == state.backlog().push(batch),
        state.backlog().len() > 0 ==> state.complete(outcome).0.backlog()
            == state.backlog().drop_first(),
        state.backlog().len() == 0 ==> state.complete(outcome).0 == state,
{
    assert(state.submit(batch).0.backlog() =~= state.backlog().push(batch));
    if state.building is Some {
        assert(state.complete(outcome).0.backlog() =~= state.backlog().drop_first());
    }
}

/// One build runs at a time: a build starts only when none is running, and
/// it is always the build of the oldest batch of the backlog.
pub proof fn law_one_build_at_a_time(
    state: CoordinatorState,
    batch: Seq<Seq<char>>,
    outcome: Result<(), Error>,
)
    requires
        state.wf(),
    ensures
        state.submit(batch).1 is Some <==> state.building is None,
        state.submit(batch).1 is Some ==> state.submit(batch).0.building == Some(batch),
        state.complete(outcome).1 matches Some(completion) ==> (completion.next is Some
            <==> state.queued.len() > 0),
        state.complete(outcome).0.building is Some ==> state.queued.len() > 0 && state.complete(
            outcome,
        ).0.building == Some(state.queued[0]),
{
}

/// Every batch is built, and in the order of arrival. After any run of
/// inputs, the builds that were started, followed by the batches that still
/// wait, are the batches that arrived: none was dropped, none was built
/// twice, and none overtook another. And no batch waits unless a build is
/// running.
pub proof fn law_builds_follow_arrivals(inputs: Seq<CoordinatorInput>)
    ensures
        ({
            let (state, started) = CoordinatorState::idle().run(inputs);
            &&& started + triggers(state.queued) == triggers(arrivals(inputs))
            &&& state.building is None ==> state.queued.len() == 0
            &&& state.building matches Some(batch) ==> started.len() > 0 && started.last()
                == batch[0]
        }),
    decreases inputs.len(),
{
    let (state, started) = CoordinatorState::idle().run(inputs);
    if inputs.len() == 0 {
        assert(started + triggers(state.queued) =~= triggers(arrivals(inputs)));
    } else {
        let earlier = inputs.drop_last();
        law_builds_follow_arrivals(earlier);
        let (before, built) = CoordinatorState::idle().run(earlier);
        assert(built + triggers(before.queued) == triggers(arrivals(earlier)));
        match inputs.last() {
            CoordinatorInput::Submit(batch) => {
                assert(triggers(arrivals(earlier).push(batch)) =~= triggers(arrivals(earlier)).push(
                    batch[0],
                ));
                if before.building is None {
                    assert(started + triggers(state.queued) =~= (built + triggers(
                        before.queued,
                    )).push(batch[0]));
                } else {
                    assert(triggers(state.queued) =~= triggers(before.queued).push(batch[0]));
                    assert(started + triggers(state.queued) =~= (built + triggers(
                        before.queued,
                    )).push(batch[0]));
                }
            },
            CoordinatorInput::Complete(outcome) => {
                if before.building is Some && before.queued.len() > 0 {
                    assert(triggers(before.queued) =~= seq![before.queued[0][0]] + triggers(
                        before.queued.drop_first(),
                    ));
                    assert(started + triggers(state.queued) =~= built + triggers(before.queued));
                } else {
                    assert(state.queued =~= before.queued);
                }
            },
        }
    }
}

} // verus!
