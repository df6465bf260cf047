//! The change detector: it collapses the filesystem events of one burst into
//! a single batch, and closes the batch once the burst has paused for the
//! length of the debounce window.
//!
//! Time is a count of milliseconds on a clock of the caller's choosing. The
//! detector never reads a clock itself: each input carries its moment.

use vstd::prelude::*;

verus! {

/// The debounce window of the development server, in milliseconds.
pub const DEBOUNCE_MILLIS: u64 = 50;

/// The changed paths of one burst, in the order in which they were observed.
/// A batch that is handed out is never empty.
#[derive(Debug, PartialEq, Eq)]
pub struct ChangeBatch {
    paths: Vec<String>,
}

impl View for ChangeBatch {
    type V = Seq<Seq<char>>;

    closed spec fn view(&self) -> Seq<Seq<char>> {
        self.paths.deep_view()
    }
}

impl ChangeBatch {
    /// A batch holds at least one path.
    pub open spec fn wf(&self) -> bool {
        self@.len() > 0
    }

    /// Makes a batch of the given paths, unless there are none.
    pub fn new(paths: Vec<String>) -> (batch: Option<ChangeBatch>)
        ensures
            batch is Some <==> paths@.len() > 0,
            batch matches Some(b) ==> b.wf() && b@ == paths.deep_view(),
    {
        if paths.len() == 0 {
            None
        } else {
            Some(ChangeBatch { paths })
        }
    }

    /// The number of changes in the batch.
    pub fn len(&self) -> (n: usize)
        ensures
            n == self@.len(),
    {
        self.paths.len()
    }

    /// The path of the change that opened the batch.
    pub fn first_path(&self) -> (path: &String)
        requires
            self.wf(),
        ensures
            path@ == self@[0],
    {
        &self.paths[0]
    }

    /// All the paths of the batch.
    pub fn paths(&self) -> (paths: &Vec<String>)
        ensures
            paths.deep_view() == self@,
    {
        &self.paths
    }
}

/// The view of a batch that may or may not have been closed.
pub open spec fn closed_view(batch: Option<ChangeBatch>) -> Option<Seq<Seq<char>>> {
    match batch {
        Some(b) => Some(b@),
        None => None,
    }
}

/// The time that has passed between two moments of one clock, and nothing
/// if the clock was set back in between.
pub open spec fn elapsed(since: u64, now: u64) -> int {
    if now >= since {
        now - since
    } else {
        0
    }
}

/// What the detector knows between two inputs.
pub struct DetectorState {
    /// The quiet period that closes a batch.
    pub window: u64,
    /// The paths of the batch that is still open.
    pub pending: Seq<Seq<char>>,
    /// The moment of the latest change in the open batch.
    pub last_change: u64,
}

/// A change as the detector is told of it: a path and a moment.
pub struct Change {
    pub path: Seq<char>,
    pub at: u64,
}

impl DetectorState {
    /// The detector before any change.
    pub open spec fn idle(window: u64) -> DetectorState {
        DetectorState { window, pending: Seq::empty(), last_change: 0 }
    }

    /// A batch is open and nothing has extended it for a whole window.
    pub open spec fn expired(self, now: u64) -> bool {
        self.pending.len() > 0 && elapsed(self.last_change, now) >= self.window
    }

    /// A change at `now`. It extends the open batch, unless that batch has
    /// already expired: then the old batch is closed and the change opens
    /// the next one.
    pub open spec fn record(self, path: Seq<char>, now: u64) -> (DetectorState, Option<Seq<Seq<char>>>) {
        if self.expired(now) {
            (DetectorState { pending: seq![path], last_change: now, ..self }, Some(self.pending))
        } else {
            (DetectorState { pending: self.pending.push(path), last_change: now, ..self }, None)
        }
    }

    /// The clock has reached `now` without a change. An expired batch is
    /// closed; anything else stays as it is.
    pub open spec fn poll(self, now: u64) -> (DetectorState, Option<Seq<Seq<char>>>) {
        if self.expired(now) {
            (DetectorState { pending: Seq::empty(), ..self }, Some(self.pending))
        } else {
            (self, None)
        }
    }

    /// The first moment at which the open batch can be closed.
    pub open spec fn deadline(self) -> Option<u64> {
        if self.pending.len() == 0 {
            None
        } else if self.last_change + self.window > u64::MAX {
            Some(u64::MAX)
        } else {
            Some((self.last_change + self.window) as u64)
        }
    }

    /// The detector after a run of changes, with the batches that were
    /// closed on the way, oldest first.
    pub open spec fn feed(self, changes: Seq<Change>) -> (DetectorState, Seq<Seq<Seq<char>>>)
        decreases changes.len(),
    {
        if changes.len() == 0 {
            (self, Seq::empty())
        } else {
            let (before, closed) = self.feed(changes.drop_last());
            let (after, batch) = before.record(changes.last().path, changes.last().at);
            (
                after,
                match batch {
                    Some(b) => closed.push(b),
                    None => closed,
                },
            )
        }
    }
}

/// The paths of a run of changes.
pub open spec fn paths_of(changes: Seq<Change>) -> Seq<Seq<char>> {
    Seq::new(changes.len(), |i: int| changes[i].path)
}

/// One batch for each change of a run, holding that change alone.
pub open spec fn singles_of(changes: Seq<Change>) -> Seq<Seq<Seq<char>>> {
    Seq::new(changes.len(), |i: int| seq![changes[i].path])
}

/// Each change of the run comes less than a window after the one before it.
pub open spec fn is_burst(changes: Seq<Change>, window: u64) -> bool {
    forall|i: int|
        0 < i < changes.len() ==> changes[i - 1].at <= (#[trigger] changes[i]).at < changes[i - 1].at
            + window
}

/// Each change of the run comes at least a window after the one before it.
pub open spec fn is_spaced(changes: Seq<Change>, window: u64) -> bool {
    forall|i: int|
        0 < i < changes.len() ==> (#[trigger] changes[i]).at >= changes[i - 1].at + window
}

/// What the detector is told: a change, or that the clock has reached a
/// moment without one.
pub enum Input {
    Change(Change),
    Poll { at: u64 },
}

impl Input {
    /// The moment of the input.
    pub open spec fn at(self) -> u64 {
        match self {
            Input::Change(change) => change.at,
            Input::Poll { at } => at,
        }
    }
}

impl DetectorState {
    /// The detector after one input, and the batch that the input closed.
    pub open spec fn step(self, input: Input) -> (DetectorState, Option<Seq<Seq<char>>>) {
        match input {
            Input::Change(change) => self.record(change.path, change.at),
            Input::Poll { at } => self.poll(at),
        }
    }

    /// The detector after a run of inputs, with the batches that were
    /// closed on the way, oldest first.
    pub open spec fn run(self, inputs: Seq<Input>) -> (DetectorState, Seq<Seq<Seq<char>>>)
        decreases inputs.len(),
    {
        if inputs.len() == 0 {
            (self, Seq::empty())
        } else {
            let (before, closed) = self.run(inputs.drop_last());
            let (after, batch) = before.step(inputs.last());
            (
                after,
                match batch {
                    Some(b) => closed.push(b),
                    None => closed,
                },
            )
        }
    }
}

/// The changes among the inputs, in their order.
pub open spec fn changes_of(inputs: Seq<Input>) -> Seq<Change>
    decreases inputs.len(),
{
    if inputs.len() == 0 {
        Seq::empty()
    } else {
        match inputs.last() {
            Input::Change(change) => changes_of(inputs.drop_last()).push(change),
            Input::Poll { at } => changes_of(inputs.drop_last()),
        }
    }
}

/// No input comes before one that was made earlier.
pub open spec fn in_order(inputs: Seq<Input>) -> bool {
    forall|i: int, j: int|
        0 <= i <= j < inputs.len() ==> (#[trigger] inputs[i]).at() <= (#[trigger] inputs[j]).at()
}

/// The inputs hold a change, and they end with a poll that comes a window
/// or more after the last change: whatever was open is closed by then.
pub open spec fn ends_after_pause(inputs: Seq<Input>, window: u64) -> bool {
    &&& inputs.len() > 0
    &&& inputs.last() is Poll
    &&& changes_of(inputs).len() > 0
    &&& inputs.last().at() >= changes_of(inputs).last().at + window
}

/// The batches that a run of changes falls into: a batch ends where the
/// next change comes a window or more after the one before it, and with the
/// last change.
pub open spec fn batches_of(changes: Seq<Change>, window: u64) -> Seq<Seq<Seq<char>>> {
    let (state, closed) = DetectorState::idle(window).feed(changes);
    if state.pending.len() > 0 {
        closed.push(state.pending)
    } else {
        closed
    }
}

/// Debouncer for the changes under the watched roots.
pub struct ChangeDetector {
    window: u64,
    pending: Vec<String>,
    last_change: u64,
}

impl View for ChangeDetector {
    type V = DetectorState;

    closed spec fn view(&self) -> DetectorState {
        DetectorState {
            window: self.window,
            pending: self.pending.deep_view(),
            last_change: self.last_change,
        }
    }
}

impl ChangeDetector {
    /// A detector with no batch open.
    pub fn new(window: u64) -> (detector: ChangeDetector)
        ensures
            detector@ == DetectorState::idle(window),
    {
        let detector = ChangeDetector { window, pending: Vec::new(), last_change: 0 };
        assert(detector@.pending =~= Seq::empty());
        detector
    }

    fn expired(&self, now: u64) -> (expired: bool)
        ensures
            expired == self@.expired(now),
    {
        let elapsed: u64 = if now >= self.last_change {
            now - self.last_change
        } else {
            0
        };
        self.pending.len() > 0 && elapsed >= self.window
    }

    /// Takes note of a change to `path` that was observed at `now`, and
    /// hands out the batch that this change found expired, if any.
    pub fn record(&mut self, path: String, now: u64) -> (closed: Option<ChangeBatch>)
        ensures
            final(self)@ == old(self)@.record(path@, now).0,
            closed_view(closed) == old(self)@.record(path@, now).1,
            closed matches Some(batch) ==> batch.wf(),
    {
        let closed = self.poll(now);
        self.pending.push(path);
        self.last_change = now;
        assert(self@.pending =~= old(self)@.record(path@, now).0.pending);
        closed
    }

    /// Hands out the open batch if it has expired by `now`.
    pub fn poll(&mut self, now: u64) -> (closed: Option<ChangeBatch>)
        ensures
            final(self)@ == old(self)@.poll(now).0,
            closed_view(closed) == old(self)@.poll(now).1,
            closed matches Some(batch) ==> batch.wf(),
    {
        if self.expired(now) {
            let mut paths: Vec<String> = Vec::new();
            core::mem::swap(&mut self.pending, &mut paths);
            assert(self@.pending =~= Seq::empty());
            ChangeBatch::new(paths)
        } else {
            None
        }
    }

    /// The moment at which `poll` should next be called, if a batch is open.
    pub fn deadline(&self) -> (deadline: Option<u64>)
        ensures
            deadline == self@.deadline(),
    {
        if self.pending.len() == 0 {
            None
        } else {
            Some(self.last_change.saturating_add(self.window))
        }
    }

    /// The debounce window, in milliseconds.
    pub fn window(&self) -> (window: u64)
        ensures
            window == self@.window,
    {
        self.window
    }
}

proof fn lemma_feed_burst(window: u64, changes: Seq<Change>)
    requires
        changes.len() > 0,
        is_burst(changes, window),
    ensures
        DetectorState::idle(window).feed(changes) == (
            DetectorState { window, pending: paths_of(changes), last_change: changes.last().at },
            Seq::<Seq<Seq<char>>>::empty(),
        ),
    decreases changes.len(),
{
    let start = DetectorState::idle(window);
    let earlier = changes.drop_last();
    if earlier.len() == 0 {
        assert(start.feed(earlier) == (start, Seq::<Seq<Seq<char>>>::empty()));
        assert(start.pending.push(changes.last().path) =~= paths_of(changes));
    } else {
        assert forall|i: int| 0 < i < earlier.len() implies earlier[i - 1].at <= (
        #[trigger] earlier[i]).at < earlier[i - 1].at + window by {
            assert(earlier[i] == changes[i]);
            assert(earlier[i - 1] == changes[i - 1]);
        }
        lemma_feed_burst(window, earlier);
        let last: int = changes.len() - 1;
        assert(changes[last].at < changes[last - 1].at + window);
        assert(earlier.last() == changes[last - 1]);
        assert(paths_of(earlier).push(changes.last().path) =~= paths_of(changes));
    }
}

proof fn lemma_feed_spaced(window: u64, changes: Seq<Change>)
    requires
        changes.len() > 0,
        is_spaced(changes, window),
    ensures
        DetectorState::idle(window).feed(changes) == (
            DetectorState { window, pending: seq![changes.last().path], last_change: changes.last().at },
            singles_of(changes.drop_last()),
        ),
    decreases changes.len(),
{
    let start = DetectorState::idle(window);
    let earlier = changes.drop_last();
    if earlier.len() == 0 {
        assert(start.feed(earlier) == (start, Seq::<Seq<Seq<char>>>::empty()));
        assert(start.pending.push(changes.last().path) =~= seq![changes.last().path]);
        assert(singles_of(earlier) =~= Seq::<Seq<Seq<char>>>::empty());
    } else {
        assert forall|i: int| 0 < i < earlier.len() implies (#[trigger] earlier[i]).at >= earlier[i
            - 1].at + window by {
            assert(earlier[i] == changes[i]);
            assert(earlier[i - 1] == changes[i - 1]);
        }
        lemma_feed_spaced(window, earlier);
        let last: int = changes.len() - 1;
        assert(changes[last].at >= changes[last - 1].at + window);
        assert(earlier.last() == changes[last - 1]);
        assert(singles_of(earlier.drop_last()).push(seq![earlier.last().path]) =~= singles_of(
            earlier,
        ));
    }
}

proof fn lemma_feed_ends_open(window: u64, changes: Seq<Change>)
    ensures
        DetectorState::idle(window).feed(changes).0.window == window,
        changes.len() > 0 ==> DetectorState::idle(window).feed(changes).0.pending.len() > 0,
        changes.len() > 0 ==> DetectorState::idle(window).feed(changes).0.last_change
            == changes.last().at,
    decreases changes.len(),
{
    if changes.len() > 0 {
        lemma_feed_ends_open(window, changes.drop_last());
    }
}

// A run with polls is a run without them, but for one thing: a poll may
// have closed the open batch already, which the next change would have
// closed otherwise.
proof fn lemma_run_follows_feed(window: u64, inputs: Seq<Input>)
    requires
        in_order(inputs),
    ensures
        ({
            let (with_polls, closed) = DetectorState::idle(window).run(inputs);
            let (without, fed) = DetectorState::idle(window).feed(changes_of(inputs));
            ||| with_polls == without && closed == fed
            ||| {
                &&& inputs.len() > 0
                &&& with_polls == DetectorState { pending: Seq::empty(), ..without }
                &&& closed == fed.push(without.pending)
                &&& without.expired(inputs.last().at())
            }
        }),
    decreases inputs.len(),
{
    if inputs.len() > 0 {
        let earlier = inputs.drop_last();
        assert forall|i: int, j: int| 0 <= i <= j < earlier.len() implies (
        #[trigger] earlier[i]).at() <= (#[trigger] earlier[j]).at() by {
            assert(earlier[i] == inputs[i]);
            assert(earlier[j] == inputs[j]);
        }
        lemma_run_follows_feed(window, earlier);
        if earlier.len() > 0 {
            assert(earlier.last() == inputs[earlier.len() - 1]);
            assert(inputs.last() == inputs[inputs.len() - 1]);
            assert(earlier.last().at() <= inputs.last().at());
        }
        let without = DetectorState::idle(window).feed(changes_of(earlier)).0;
        match inputs.last() {
            Input::Change(change) => {
                assert(changes_of(inputs).drop_last() =~= changes_of(earlier));
            },
            Input::Poll { at } => {},
        }
    }
}

/// The clock decides when a batch is closed, never what is in it. For
/// inputs in the order of their moments that end after a pause, the batches
/// that are handed out are those that the changes fall into by the gaps
/// between them, however many polls came in between and whenever they came.
pub proof fn law_polls_decide_when_not_what(window: u64, inputs: Seq<Input>)
    requires
        in_order(inputs),
        ends_after_pause(inputs, window),
    ensures
        DetectorState::idle(window).run(inputs).1 == batches_of(changes_of(inputs), window),
        DetectorState::idle(window).run(inputs).0.pending.len() == 0,
{
    let earlier = inputs.drop_last();
    assert forall|i: int, j: int| 0 <= i <= j < earlier.len() implies (#[trigger] earlier[i]).at()
        <= (#[trigger] earlier[j]).at() by {
        assert(earlier[i] == inputs[i]);
        assert(earlier[j] == inputs[j]);
    }
    lemma_run_follows_feed(window, earlier);
    lemma_feed_ends_open(window, changes_of(inputs));
    assert(changes_of(inputs) == changes_of(earlier));
}

/// A burst is delivered as one batch. If each change follows the one before
/// it within the window, then, once the burst has paused for a window, one
/// batch has been handed out and no more, and it holds every change of the
/// burst: however long the burst lasted, and whatever polls came during it.
pub proof fn law_burst_is_one_batch(window: u64, inputs: Seq<Input>)
    requires
        in_order(inputs),
        ends_after_pause(inputs, window),
        is_burst(changes_of(inputs), window),
    ensures
        DetectorState::idle(window).run(inputs).1 == seq![paths_of(changes_of(inputs))],
{
    law_polls_decide_when_not_what(window, inputs);
    lemma_feed_burst(window, changes_of(inputs));
    assert(Seq::<Seq<Seq<char>>>::empty().push(paths_of(changes_of(inputs))) =~= seq![
        paths_of(changes_of(inputs)),
    ]);
}

/// Changes that are a window or more apart are delivered one by one: once
/// the last of them has been followed by a pause, as many batches have been
/// handed out as there were changes, each with one change, in their order.
pub proof fn law_spaced_changes_are_one_batch_each(window: u64, inputs: Seq<Input>)
    requires
        in_order(inputs),
        ends_after_pause(inputs, window),
        is_spaced(changes_of(inputs), window),
    ensures
        DetectorState::idle(window).run(inputs).1 == singles_of(changes_of(inputs)),
        DetectorState::idle(window).run(inputs).1.len() == changes_of(inputs).len(),
{
    let changes = changes_of(inputs);
    law_polls_decide_when_not_what(window, inputs);
    lemma_feed_spaced(window, changes);
    assert(singles_of(changes.drop_last()).push(seq![changes.last().path]) =~= singles_of(
        changes,
    ));
}

/// No batch is closed before its window has passed: less than a window
/// after the latest change, neither a poll nor another change hands
/// anything out, and a poll leaves the detector as it was.
pub proof fn law_nothing_is_closed_early(state: DetectorState, path: Seq<char>, now: u64)
    requires
        elapsed(state.last_change, now) < state.window,
    ensures
        state.poll(now) == (state, None::<Seq<Seq<char>>>),
        state.record(path, now).1 is None,
        state.record(path, now).0.pending == state.pending.push(path),
{
}

} // verus!
