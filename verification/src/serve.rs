//! The development server as a state machine: the change detector, the
//! rebuild coordinator and the reload hub, driven by one stream of events.
//!
//! The program around this crate waits for the events (a file changed, the
//! clock reached the detector's deadline, the build pipeline returned, a
//! client connected or went away) and hands each to `serve`. It carries out
//! the actions that come back, in their order, before it hands in the next
//! event.

use crate::change::{
    changes_of,
    closed_view,
    ends_after_pause,
    in_order,
    is_burst,
    law_burst_is_one_batch,
    Change,
    ChangeBatch,
    ChangeDetector,
    DetectorState,
    Input,
};
use crate::error::Error;
use crate::rebuild::{
    law_batches_keep_their_order,
    Completion,
    CoordinatorState,
    RebuildCoordinator,
    Verdict,
    VerdictView,
};
use crate::websocket::{
    addresses_of,
    distinct,
    has_client,
    law_registering_keeps_addresses_distinct,
    law_unregister_after_register,
    law_unregister_is_final,
    law_unregister_keeps_others,
    law_unregistering_keeps_addresses_distinct,
    registered,
    reload_all,
    unregistered,
    WebSocketServer,
};
use vstd::prelude::*;

verus! {

/// Something that happened outside, with the moment where that matters.
pub enum Event<W> {
    /// A file under a watched root changed.
    Changed { path: String, at: u64 },
    /// The clock has reached `at` and nothing else has happened.
    Tick { at: u64 },
    /// The build pipeline has returned.
    BuildFinished { outcome: Result<(), Error> },
    /// A client has connected from `address`; it is written to on `writer`.
    Connected { address: String, writer: W },
    /// The connection from `address` was closed or broke.
    Disconnected { address: String },
    /// The reload could not be sent to the client from `address`.
    SendFailed { address: String },
}

/// Something for the program to do.
#[derive(Debug, PartialEq, Eq)]
pub enum Action {
    /// Run the build pipeline; `path` is the change that triggered it.
    Build { path: String },
    /// Send the reload signal to the client from `address`.
    Reload { address: String },
    /// Log that the build triggered by `path` failed with `message`.
    Report { path: String, message: String },
}

/// The view of an `Action`.
pub enum ActionView {
    Build { path: Seq<char> },
    Reload { address: Seq<char> },
    Report { path: Seq<char>, message: Seq<char> },
}

impl View for Action {
    type V = ActionView;

    open spec fn view(&self) -> ActionView {
        match self {
            Action::Build { path } => ActionView::Build { path: path@ },
            Action::Reload { address } => ActionView::Reload { address: address@ },
            Action::Report { path, message } => ActionView::Report {
                path: path@,
                message: message@,
            },
        }
    }
}

/// The views of a list of actions.
pub open spec fn action_views(actions: Seq<Action>) -> Seq<ActionView> {
    Seq::new(actions.len(), |i: int| actions[i]@)
}

/// One reload for each of the clients, in their order.
pub open spec fn reloads_for<W>(clients: Seq<(Seq<char>, W)>) -> Seq<ActionView> {
    Seq::new(clients.len(), |i: int| ActionView::Reload { address: clients[i].0 })
}

/// The build that starts now, if one does.
pub open spec fn build_for(start: Option<Seq<char>>) -> Seq<ActionView> {
    match start {
        Some(path) => seq![ActionView::Build { path }],
        None => Seq::empty(),
    }
}

/// What the server knows between two events.
pub struct ServerState<W> {
    pub detector: DetectorState,
    pub coordinator: CoordinatorState,
    pub clients: Seq<(Seq<char>, W)>,
}

impl<W> ServerState<W> {
    /// The server at startup: no change seen, no build running, no client.
    pub open spec fn start(window: u64) -> ServerState<W> {
        ServerState {
            detector: DetectorState::idle(window),
            coordinator: CoordinatorState::idle(),
            clients: Seq::empty(),
        }
    }

    /// The coordinator is in order and no two clients share an address.
    pub open spec fn wf(self) -> bool {
        self.coordinator.wf() && distinct(self.clients)
    }

    /// The detector has moved on and may have closed a batch. A closed
    /// batch goes to the coordinator, which may start its build.
    pub open spec fn after_detector(
        self,
        moved: (DetectorState, Option<Seq<Seq<char>>>),
    ) -> (ServerState<W>, Seq<ActionView>) {
        match moved.1 {
            None => (ServerState { detector: moved.0, ..self }, Seq::empty()),
            Some(batch) => {
                let (coordinator, start) = self.coordinator.submit(batch);
                (ServerState { detector: moved.0, coordinator, ..self }, build_for(start))
            },
        }
    }

    /// The build pipeline has returned. A success is followed by a reload
    /// for every client, a failure by a report; after either, the build of
    /// the oldest waiting batch starts.
    pub open spec fn after_build(self, outcome: Result<(), Error>) -> (
        ServerState<W>,
        Seq<ActionView>,
    ) {
        match self.coordinator.complete(outcome) {
            (_, None) => (self, Seq::empty()),
            (coordinator, Some(completion)) => (
                ServerState { coordinator, ..self },
                match completion.verdict {
                    VerdictView::Reload => reloads_for(self.clients),
                    VerdictView::Report { path, message } => seq![
                        ActionView::Report { path, message },
                    ],
                } + build_for(completion.next),
            ),
        }
    }

    /// The server after an event, and the actions that the event calls for,
    /// in the order in which they are to be carried out.
    pub open spec fn step(self, event: Event<W>) -> (ServerState<W>, Seq<ActionView>) {
        match event {
            Event::Changed { path, at } => self.after_detector(self.detector.record(path@, at)),
            Event::Tick { at } => self.after_detector(self.detector.poll(at)),
            Event::BuildFinished { outcome } => self.after_build(outcome),
            Event::Connected { address, writer } => (
                ServerState { clients: registered(self.clients, address@, writer), ..self },
                Seq::empty(),
            ),
            Event::Disconnected { address } => (
                ServerState { clients: unregistered(self.clients, address@), ..self },
                Seq::empty(),
            ),
            Event::SendFailed { address } => (
                ServerState { clients: unregistered(self.clients, address@), ..self },
                Seq::empty(),
            ),
        }
    }
}

/// What the change detector is told by an event, if the event is for it.
pub open spec fn detector_input<W>(event: Event<W>) -> Option<Input> {
    match event {
        Event::Changed { path, at } => Some(Input::Change(Change { path: path@, at })),
        Event::Tick { at } => Some(Input::Poll { at }),
        _ => None,
    }
}

/// What the change detector is told by a run of events.
pub open spec fn detector_inputs<W>(events: Seq<Event<W>>) -> Seq<Input>
    decreases events.len(),
{
    if events.len() == 0 {
        Seq::empty()
    } else {
        match detector_input(events.last()) {
            Some(input) => detector_inputs(events.drop_last()).push(input),
            None => detector_inputs(events.drop_last()),
        }
    }
}

/// Every event of the run is a change or a tick.
pub open spec fn only_changes_and_ticks<W>(events: Seq<Event<W>>) -> bool {
    forall|i: int| 0 <= i < events.len() ==> detector_input(#[trigger] events[i]) is Some
}

impl<W> ServerState<W> {
    /// The server after a run of events, and all the actions that the
    /// events called for, in their order.
    pub open spec fn run(self, events: Seq<Event<W>>) -> (ServerState<W>, Seq<ActionView>)
        decreases events.len(),
    {
        if events.len() == 0 {
            (self, Seq::empty())
        } else {
            let (before, done) = self.run(events.drop_last());
            let (after, actions) = before.step(events.last());
            (after, done + actions)
        }
    }
}

/// The development server.
pub struct Server<W> {
    detector: ChangeDetector,
    coordinator: RebuildCoordinator,
    hub: WebSocketServer<W>,
}

impl<W> View for Server<W> {
    type V = ServerState<W>;

    closed spec fn view(&self) -> ServerState<W> {
        ServerState { detector: self.detector@, coordinator: self.coordinator@, clients: self.hub@ }
    }
}

impl<W> Server<W> {
    /// The state is one that `new` and `serve` lead to.
    pub open spec fn wf(&self) -> bool {
        self@.wf()
    }

    /// A server that closes a batch of changes after `window` milliseconds
    /// without a change.
    pub fn new(window: u64) -> (server: Server<W>)
        ensures
            server@ == ServerState::<W>::start(window),
            server.wf(),
    {
        Server {
            detector: ChangeDetector::new(window),
            coordinator: RebuildCoordinator::new(),
            hub: WebSocketServer::new(),
        }
    }

    /// The moment at which a `Tick` is due, if a batch of changes is open.
    pub fn deadline(&self) -> (deadline: Option<u64>)
        ensures
            deadline == self@.detector.deadline(),
    {
        self.detector.deadline()
    }

    /// Whether a build is running.
    pub fn is_building(&self) -> (building: bool)
        ensures
            building == self@.coordinator.building is Some,
    {
        self.coordinator.is_building()
    }

    /// The handle of the client from `address`.
    pub fn client(&self, address: &String) -> (found: Option<&W>)
        ensures
            match found {
                Some(writer) => exists|i: int|
                    0 <= i < self@.clients.len() && #[trigger] self@.clients[i] == (
                        address@,
                        *writer,
                    ),
                None => !has_client(self@.clients, address@),
            },
    {
        let found = self.hub.client(address);
        proof {
            if let Some(writer) = found {
                let i = choose|i: int|
                    0 <= i < self.hub@.len() && #[trigger] self.hub@[i] == (address@, *writer);
                assert(self@.clients[i] == (address@, *writer));
            }
        }
        found
    }

    /// The addresses of the connected clients.
    pub fn clients(&self) -> (addresses: Vec<String>)
        ensures
            addresses.deep_view() == addresses_of(self@.clients),
    {
        self.hub.addresses()
    }

    fn after_detector(&mut self, closed: Option<ChangeBatch>) -> (actions: Vec<Action>)
        requires
            old(self).wf(),
            closed matches Some(batch) ==> batch.wf(),
        ensures
            final(self).wf(),
            (final(self)@, action_views(actions@)) == old(self)@.after_detector(
                (old(self)@.detector, closed_view(closed)),
            ),
    {
        let mut actions: Vec<Action> = Vec::new();
        match closed {
            None => {
                assert(action_views(actions@) =~= Seq::empty());
            },
            Some(batch) => {
                match self.coordinator.submit(batch) {
                    Some(path) => {
                        actions.push(Action::Build { path });
                        assert(action_views(actions@) =~= seq![ActionView::Build { path: path@ }]);
                    },
                    None => {
                        assert(action_views(actions@) =~= Seq::empty());
                    },
                }
            },
        }
        actions
    }

    fn after_build(&mut self, outcome: Result<(), Error>) -> (actions: Vec<Action>)
        requires
            old(self).wf(),
        ensures
            final(self).wf(),
            (final(self)@, action_views(actions@)) == old(self)@.after_build(outcome),
    {
        let mut actions: Vec<Action> = Vec::new();
        match self.coordinator.complete(outcome) {
            None => {
                assert(action_views(actions@) =~= Seq::empty());
            },
            Some(Completion { verdict, next }) => {
                match verdict {
                    Verdict::Reload => {
                        let addresses = reload_all(&self.hub);
                        assert(addresses.deep_view().len() == addresses@.len());
                        let mut i: usize = 0;
                        while i < addresses.len()
                            invariant
                                i <= addresses@.len(),
                                addresses@.len() == self@.clients.len(),
                                addresses.deep_view() == addresses_of(self@.clients),
                                actions@.len() == i,
                                forall|k: int|
                                    0 <= k < i ==> (#[trigger] actions@[k])@ == (
                                    ActionView::Reload { address: self@.clients[k].0 }),
                            decreases addresses@.len() - i,
                        {
                            assert(addresses.deep_view()[i as int] == addresses@[i as int]@);
                            actions.push(Action::Reload { address: addresses[i].clone() });
                            i += 1;
                        }
                        assert(action_views(actions@) =~= reloads_for(self@.clients));
                    },
                    Verdict::Report { path, message } => {
                        actions.push(Action::Report { path, message });
                        assert(action_views(actions@) =~= seq![
                            ActionView::Report { path: path@, message: message@ },
                        ]);
                    },
                }
                let ghost before = action_views(actions@);
                match next {
                    Some(path) => {
                        actions.push(Action::Build { path });
                        assert(action_views(actions@) =~= before + seq![
                            ActionView::Build { path: path@ },
                        ]);
                    },
                    None => {
                        assert(action_views(actions@) =~= before + Seq::empty());
                    },
                }
            },
        }
        actions
    }
}

/// Takes one event and returns what is to be done about it.
///
/// A change or a tick goes to the change detector; a batch that it closes
/// starts a build, or waits for the running build to end. The end of a build
/// is followed by a reload for every connected client if the build
/// succeeded, and by a report if it failed; then the build of the oldest
/// waiting batch starts. A connection is registered, and unregistered when
/// it closes or when a reload could not be sent on it.
pub fn serve<W>(server: &mut Server<W>, event: Event<W>) -> (actions: Vec<Action>)
    requires
        old(server).wf(),
    ensures
        final(server).wf(),
        (final(server)@, action_views(actions@)) == old(server)@.step(event),
{
    match event {
        Event::Changed { path, at } => {
            let closed = server.detector.record(path, at);
            server.after_detector(closed)
        },
        Event::Tick { at } => {
            let closed = server.detector.poll(at);
            server.after_detector(closed)
        },
        Event::BuildFinished { outcome } => server.after_build(outcome),
        Event::Connected { address, writer } => {
            server.hub.add_client(address, writer);
            let actions: Vec<Action> = Vec::new();
            assert(action_views(actions@) =~= Seq::empty());
            actions
        },
        Event::Disconnected { address } => {
            server.hub.remove_client(&address);
            let actions: Vec<Action> = Vec::new();
            assert(action_views(actions@) =~= Seq::empty());
            actions
        },
        Event::SendFailed { address } => {
            server.hub.remove_client(&address);
            let actions: Vec<Action> = Vec::new();
            assert(action_views(actions@) =~= Seq::empty());
            actions
        },
    }
}

/// No action of the list is a reload.
pub open spec fn no_reload(actions: Seq<ActionView>) -> bool {
    forall|i: int| 0 <= i < actions.len() ==> !((#[trigger] actions[i]) is Reload)
}

/// Every event leaves the server in order, whatever state it was in: no
/// event stops it.
pub proof fn law_server_stays_in_order<W>(state: ServerState<W>, event: Event<W>)
    requires
        state.wf(),
    ensures
        state.step(event).0.wf(),
{
    match event {
        Event::Changed { path, at } => {},
        Event::Tick { at } => {},
        Event::BuildFinished { outcome } => {
            if state.coordinator.building is Some && state.coordinator.queued.len() > 0 {
                let after = state.coordinator.complete(outcome).0;
                assert forall|i: int| 0 <= i < after.queued.len() implies (
                #[trigger] after.queued[i]).len() > 0 by {
                    assert(after.queued[i] == state.coordinator.queued[i + 1]);
                }
            }
        },
        Event::Connected { address, writer } => {
            law_registering_keeps_addresses_distinct(state.clients, address@, writer);
        },
        Event::Disconnected { address } => {
            law_unregistering_keeps_addresses_distinct(state.clients, address@);
        },
        Event::SendFailed { address } => {
            law_unregistering_keeps_addresses_distinct(state.clients, address@);
        },
    }
}

/// A reload is sent only in answer to the end of a build, and only of a
/// build that succeeded: never before the build has ended, never while it
/// runs, and never for a build that failed.
pub proof fn law_reload_follows_successful_build<W>(state: ServerState<W>, event: Event<W>)
    ensures
        !no_reload(state.step(event).1) ==> state.coordinator.building is Some && (
        event matches Event::BuildFinished { outcome: Ok(_) }),
{
}

/// The end of a successful build is answered with one reload for each
/// client that is registered at that moment, before anything else.
pub proof fn law_successful_build_reloads_every_client<W>(state: ServerState<W>)
    requires
        state.coordinator.building is Some,
    ensures
        state.step(Event::BuildFinished { outcome: Ok(()) }).1 == reloads_for(state.clients)
            + build_for(state.coordinator.complete(Ok(())).1->0.next),
        forall|i: int|
            0 <= i < state.clients.len() ==> state.step(
                Event::BuildFinished { outcome: Ok(()) },
            ).1[i] == (ActionView::Reload { address: (#[trigger] state.clients[i]).0 }),
{
}

/// A build that fails is not fatal. The failure is reported with the path
/// that had triggered the build, and no reload is sent. The clients stay as
/// they were, and a client that connects afterwards is registered. The
/// batches that were waiting still wait, but for the oldest, whose build
/// starts; and where none was waiting, the build of the next batch starts
/// when it arrives. When that build succeeds, every client that is
/// registered by then gets its reload.
pub proof fn law_failed_build_is_not_fatal<W>(
    state: ServerState<W>,
    error: Error,
    address: String,
    writer: W,
    batch: Seq<Seq<char>>,
)
    requires
        state.wf(),
        state.coordinator.building is Some,
    ensures
        ({
            let (failed, actions) = state.step(Event::BuildFinished { outcome: Err(error) });
            let (joined, _) = failed.step(Event::Connected { address, writer });
            let (resumed, start) = joined.coordinator.submit(batch);
            let later = ServerState { coordinator: resumed, ..joined };
            &&& failed.wf()
            &&& failed.clients == state.clients
            &&& failed.detector == state.detector
            &&& failed.coordinator.backlog() == state.coordinator.backlog().drop_first()
            &&& no_reload(actions)
            &&& actions[0] == ActionView::Report {
                path: state.coordinator.building->0[0],
                message: error.text(),
            }
            &&& joined.wf()
            &&& joined.clients == registered(state.clients, address@, writer)
            &&& joined.coordinator == failed.coordinator
            &&& joined.coordinator.building is None ==> start == Some(batch[0])
            &&& resumed.building is Some
            &&& later.step(Event::BuildFinished { outcome: Ok(()) }).1 == reloads_for(
                joined.clients,
            ) + build_for(resumed.complete(Ok(())).1->0.next)
        }),
{
    let event = Event::<W>::BuildFinished { outcome: Err(error) };
    law_server_stays_in_order(state, event);
    let failed = state.step(event).0;
    law_server_stays_in_order(failed, Event::Connected { address, writer });
    law_batches_keep_their_order(state.coordinator, Seq::empty(), Err(error));
}

/// A send that fails costs the other clients nothing. The reloads for all
/// clients are handed out together, so that none depends on how another
/// went; and the report of a failed send removes that client alone.
pub proof fn law_failed_send_spares_the_others<W>(
    state: ServerState<W>,
    failing: String,
    other: Seq<char>,
    writer: W,
)
    requires
        state.coordinator.building is Some,
        state.clients.contains((other, writer)),
        failing@ != other,
    ensures
        state.step(Event::BuildFinished { outcome: Ok(()) }).1.contains(
            ActionView::Reload { address: other },
        ),
        state.step(Event::SendFailed { address: failing }).0.clients.contains((other, writer)),
        state.step(Event::SendFailed { address: failing }).1.len() == 0,
        !has_client(state.step(Event::SendFailed { address: failing }).0.clients, failing@),
{
    let actions = state.step(Event::BuildFinished { outcome: Ok(()) }).1;
    let i = choose|i: int| 0 <= i < state.clients.len() && state.clients[i] == (other, writer);
    assert(actions[i] == ActionView::Reload { address: other });
    law_unregister_keeps_others(state.clients, failing@, other, writer);
    law_unregister_is_final(state.clients, failing@);
}

/// A client whose connection has closed gets no reload: once it is
/// unregistered, the end of a build is answered without a reload for its
/// address.
pub proof fn law_closed_connection_gets_no_reload<W>(
    state: ServerState<W>,
    address: String,
    writer: W,
    outcome: Result<(), Error>,
)
    ensures
        ({
            let (joined, _) = state.step(Event::Connected { address, writer });
            let (left, _) = joined.step(Event::Disconnected { address });
            !left.step(Event::BuildFinished { outcome }).1.contains(
                ActionView::Reload { address: address@ },
            )
        }),
{
    let joined = state.step(Event::Connected { address, writer }).0;
    let left = joined.step(Event::Disconnected { address }).0;
    let actions = left.step(Event::BuildFinished { outcome }).1;
    law_unregister_after_register(state.clients, address@, writer);
    if actions.contains(ActionView::Reload { address: address@ }) {
        let i = choose|i: int|
            0 <= i < actions.len() && actions[i] == (ActionView::Reload { address: address@ });
        assert(i < left.clients.len());
        assert(left.clients[i].0 == address@);
    }
}

// While nothing but changes and ticks happens, the first batch that the
// detector closes is being built and the later ones wait.
proof fn lemma_changes_and_ticks<W>(window: u64, events: Seq<Event<W>>)
    requires
        only_changes_and_ticks(events),
    ensures
        ({
            let (state, actions) = ServerState::<W>::start(window).run(events);
            let (detector, closed) = DetectorState::idle(window).run(detector_inputs(events));
            &&& state.detector == detector
            &&& closed.len() == 0 ==> state.coordinator == CoordinatorState::idle()
                && actions.len() == 0
            &&& closed.len() > 0 ==> state.coordinator == (CoordinatorState {
                building: Some(closed[0]),
                queued: closed.skip(1),
            }) && actions == seq![ActionView::Build { path: closed[0][0] }]
        }),
    decreases events.len(),
{
    if events.len() > 0 {
        let earlier = events.drop_last();
        assert forall|i: int| 0 <= i < earlier.len() implies detector_input(
            #[trigger] earlier[i],
        ) is Some by {
            assert(earlier[i] == events[i]);
        }
        lemma_changes_and_ticks(window, earlier);
        assert(events.last() == events[events.len() - 1]);
        let input = detector_input(events.last())->0;
        assert(detector_inputs(events).drop_last() =~= detector_inputs(earlier));
        let (before, done) = ServerState::<W>::start(window).run(earlier);
        let (detector, closed) = DetectorState::idle(window).run(detector_inputs(earlier));
        let (state, actions) = ServerState::<W>::start(window).run(events);
        let batch = detector.step(input).1;
        assert(before.step(events.last()) == before.after_detector(detector.step(input)));
        match batch {
            Some(b) => {
                if closed.len() == 0 {
                    assert(closed.push(b).skip(1) =~= Seq::empty());
                    assert(done + seq![ActionView::Build { path: b[0] }] =~= seq![
                        ActionView::Build { path: b[0] },
                    ]);
                } else {
                    assert(closed.push(b).skip(1) =~= closed.skip(1).push(b));
                    assert(done + Seq::<ActionView>::empty() =~= done);
                }
            },
            None => {
                assert(done + Seq::<ActionView>::empty() =~= done);
            },
        }
    }
}

/// One rebuild for one burst. A server that has just started and sees a
/// burst of changes, with ticks whenever they come, starts one build once
/// the burst has paused for a window, and nothing else: however many
/// changes the burst holds, and for the path of the first of them.
pub proof fn law_burst_triggers_one_build<W>(window: u64, events: Seq<Event<W>>)
    requires
        only_changes_and_ticks(events),
        in_order(detector_inputs(events)),
        ends_after_pause(detector_inputs(events), window),
        is_burst(changes_of(detector_inputs(events)), window),
    ensures
        ServerState::<W>::start(window).run(events).1 == seq![
            ActionView::Build { path: changes_of(detector_inputs(events))[0].path },
        ],
{
    lemma_changes_and_ticks(window, events);
    law_burst_is_one_batch(window, detector_inputs(events));
}

} // verus!
