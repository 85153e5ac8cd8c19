//! The worker: the supervisor of one runtime process.
//!
//! A worker is `Starting` until the socket file of its runtime was seen and a
//! first request came back, then `Ready`, and `Exited` once its process is
//! gone. The worker itself starts no process, sends nothing and removes no
//! file: it is told what happened, and it answers what is to be done. The
//! process is held in a slot that is emptied exactly once, by whoever learns
//! first that the process must go or has gone. The end of the process is
//! reported once to those who asked to hear of it: when waiting for the
//! process has come to an end, whatever ended the process.

use vstd::prelude::*;

use crate::error::DenoWorkerError;
use crate::launch::fresh_socket_path;
use crate::launch::import_launch;
use crate::launch::import_launch_plan;
use crate::launch::is_worker_id;
use crate::launch::script_launch;
use crate::launch::script_launch_plan;
use crate::launch::socket_path_text;
use crate::launch::LaunchPlan;
use crate::launch::MAX_TEMP_DIR_BYTES;
use crate::monitor::classify_exit;
use crate::monitor::exit_outcome_of;
use crate::monitor::ExitOutcome;
use crate::monitor::ExitOutcomeView;
use crate::monitor::WaitResult;
use crate::options::DenoWorkerOptions;
use crate::readiness::readiness_step;
use crate::readiness::wait_step;
use crate::readiness::WaitStep;
use crate::readiness::SOCKET_WAIT_TIMEOUT_MS;
use crate::request::body_text;
use crate::request::header_texts;
use crate::request::request_for;
use crate::request::warm_up_request;
use crate::request::PreparedRequest;
use crate::request::MAX_SOCKET_PATH_BYTES;
use crate::text::texts;
use crate::text::utf8_len;

verus! {

/// Where a worker stands in its life.
#[derive(Debug, Clone, Copy, PartialEq, Eq, Structural)]
pub enum WorkerState {
    /// The runtime is being started; no request is accepted.
    Starting,
    /// The runtime answered; requests are accepted.
    Ready,
    /// The process is gone, or never came to be.
    Exited,
}

/// How the caller asks the runtime to stop.
#[derive(Debug, Clone, Copy, PartialEq, Eq, Structural)]
pub enum StopSignal {
    /// There is no process to stop.
    Nothing,
    /// Interrupt the process, so that it can end by itself.
    Interrupt,
    /// Kill the process.
    Kill,
}

/// The report of the end of the process, and who is to hear it. It is made
/// once, when waiting for the process has come to an end.
#[derive(Debug)]
pub struct ExitNotice {
    /// How the process ended.
    pub outcome: ExitOutcome,
    /// The tickets of those who hear of it, in the order in which they asked.
    pub listeners: Vec<u64>,
}

/// What the caller does after the worker decided on its process. Where there
/// is a report, the caller passes it on last, after the socket file is
/// removed.
#[derive(Debug)]
pub struct Cleanup {
    /// Kill the process.
    pub kill_process: bool,
    /// Remove the socket file.
    pub remove_socket: bool,
    /// Report the end of the process.
    pub notice: Option<ExitNotice>,
}

/// The view of a `Cleanup`.
pub struct Effects {
    pub kill_process: bool,
    pub remove_socket: bool,
    pub notice: Option<(ExitOutcomeView, Seq<u64>)>,
}

impl View for Cleanup {
    type V = Effects;

    open spec fn view(&self) -> Effects {
        Effects {
            kill_process: self.kill_process,
            remove_socket: self.remove_socket,
            notice: match self.notice {
                Some(notice) => Some((notice.outcome@, notice.listeners@)),
                None => None,
            },
        }
    }
}

impl Effects {
    /// Nothing is to be done.
    pub open spec fn none() -> Effects {
        Effects { kill_process: false, remove_socket: false, notice: None }
    }
}

/// A start that was given up: why, and what is left to do.
#[derive(Debug)]
pub struct Aborted {
    /// Why the start was given up.
    pub error: DenoWorkerError,
    /// What the caller does about the process.
    pub cleanup: Cleanup,
}

/// What the caller does after a look for the socket file.
#[derive(Debug)]
pub enum Startup {
    /// The socket file is there: send the first request.
    Proceed,
    /// Sleep for so many milliseconds, then look again.
    Sleep(u64),
    /// The socket file did not appear in time: the start is given up.
    Abort(Aborted),
}

/// The view of a worker: what the rules of its life speak of.
pub struct WorkerModel {
    /// The path of the socket file.
    pub socket_path: Seq<char>,
    /// Where the worker stands in its life.
    pub state: WorkerState,
    /// The process was started.
    pub spawned: bool,
    /// The slot holds the process.
    pub process_held: bool,
    /// The socket file was seen.
    pub socket_seen: bool,
    /// The first request came back: the worker was handed to its user.
    pub handed_out: bool,
    /// The start was given up: the worker will never be handed out.
    pub given_up: bool,
    /// The end of the process was reported.
    pub exit_reported: bool,
    /// The tickets of those who wait to hear of the end of the process.
    pub listeners: Seq<u64>,
    /// The ticket that the next listener gets.
    pub next_ticket: u64,
}

impl WorkerModel {
    /// What holds of every worker. A request target can be made from the
    /// socket path. The slot holds only a process that was started, and only
    /// while the worker is `Starting` or `Ready`; once it is emptied the
    /// worker is `Exited`. A worker is `Ready` exactly while it holds its
    /// process and was handed out, and it is handed out only after its
    /// process was started and its socket file was seen. A worker whose start
    /// was given up is `Exited` and was not handed out. The end is reported
    /// only of a process that was started and has left the slot, and then
    /// nobody is left waiting. Tickets are given out in rising order.
    pub open spec fn wf(self) -> bool {
        &&& utf8_len(self.socket_path) <= MAX_SOCKET_PATH_BYTES
        &&& (self.process_held ==> self.spawned && !(self.state is Exited) && !self.exit_reported)
        &&& (self.spawned && !self.process_held ==> self.state is Exited)
        &&& (self.state is Ready <==> self.process_held && self.handed_out)
        &&& (self.state is Starting ==> !self.handed_out)
        &&& (self.handed_out ==> self.socket_seen && self.spawned)
        &&& (self.given_up ==> self.state is Exited && !self.handed_out)
        &&& (self.exit_reported ==> self.spawned && !self.process_held && self.listeners.len()
            == 0)
        &&& forall|i: int| 0 <= i < self.listeners.len() ==> self.listeners[i] < self.next_ticket
        &&& forall|i: int, j: int|
            0 <= i < j < self.listeners.len() ==> self.listeners[i] < self.listeners[j]
    }

    /// A worker before its process is started.
    pub open spec fn fresh(socket_path: Seq<char>) -> WorkerModel {
        WorkerModel {
            socket_path,
            state: WorkerState::Starting,
            spawned: false,
            process_held: false,
            socket_seen: false,
            handed_out: false,
            given_up: false,
            exit_reported: false,
            listeners: Seq::empty(),
            next_ticket: 0,
        }
    }

    /// Requests are accepted: the worker was handed out.
    pub open spec fn accepts_requests(self) -> bool {
        self.handed_out
    }

    /// The first request is due: the process was started, the socket file
    /// was seen, and the worker was neither handed out nor given up.
    pub open spec fn awaits_answer(self) -> bool {
        self.spawned && self.socket_seen && !self.handed_out && !self.given_up
    }

    /// The end of the process is still to be reported: the process was
    /// started, and no report of its end was made.
    pub open spec fn awaits_end(self) -> bool {
        self.spawned && !self.exit_reported
    }

    /// The process was started: a worker that is `Starting` and has started
    /// none holds it from now on.
    pub open spec fn started(self) -> WorkerModel {
        if self.state is Starting && !self.spawned {
            WorkerModel { spawned: true, process_held: true, ..self }
        } else {
            self
        }
    }

    /// The process could not be started: the start of a worker that is
    /// `Starting` and has started none is given up, and the worker is
    /// `Exited`.
    pub open spec fn start_failed(self) -> WorkerModel {
        if self.state is Starting && !self.spawned {
            WorkerModel { state: WorkerState::Exited, given_up: true, ..self }
        } else {
            self
        }
    }

    /// The caller terminates the worker. Where the slot holds the process,
    /// the slot is emptied, the worker is `Exited`, and the process is to be
    /// killed and the socket file removed. Nothing is reported: the end of
    /// the process is reported when waiting for it has come to an end, and
    /// who asked to hear of it goes on waiting. Where the slot is empty,
    /// nothing changes and nothing is to be done.
    pub open spec fn terminated(self) -> (WorkerModel, Effects) {
        if self.process_held {
            (
                WorkerModel { state: WorkerState::Exited, process_held: false, ..self },
                Effects { kill_process: true, remove_socket: true, notice: None },
            )
        } else {
            (self, Effects::none())
        }
    }

    /// Waiting for the process came to an end. Where the end of the process
    /// is still to be reported, it is reported to all who wait, whatever
    /// ended the process, and the socket file is to be removed; the slot is
    /// empty and the worker is `Exited` from then on. Where no process was
    /// started, or its end was reported before, nothing changes and nothing
    /// is to be done.
    pub open spec fn exited(self, waited: WaitResult) -> (WorkerModel, Effects) {
        if self.awaits_end() {
            (
                WorkerModel {
                    state: WorkerState::Exited,
                    process_held: false,
                    exit_reported: true,
                    listeners: Seq::empty(),
                    ..self
                },
                Effects {
                    kill_process: false,
                    remove_socket: true,
                    notice: Some((exit_outcome_of(waited), self.listeners)),
                },
            )
        } else {
            (self, Effects::none())
        }
    }

    /// The start is given up: the worker is terminated, and is `Exited`
    /// whether or not it held a process. A worker that was handed out has no
    /// start to give up, and is left as it is.
    pub open spec fn aborted(self) -> (WorkerModel, Effects) {
        if self.handed_out {
            (self, Effects::none())
        } else {
            let (after, effects) = self.terminated();
            (WorkerModel { state: WorkerState::Exited, given_up: true, ..after }, effects)
        }
    }

    /// What the caller does after a look for the socket file. A start that
    /// was given up stays given up, whatever the look found; else a socket
    /// file that was seen once counts as seen from then on.
    pub open spec fn poll_step(self, socket_exists: bool, waited_ms: u64) -> WaitStep {
        if self.given_up {
            WaitStep::TimedOut
        } else {
            wait_step(self.socket_seen || socket_exists, waited_ms)
        }
    }

    /// The caller looked for the socket file after `waited_ms` milliseconds.
    /// A socket file that is there is remembered; where none was seen and the
    /// time is used up, the start is given up; nothing changes else, and
    /// nothing changes once the start was given up.
    pub open spec fn polled(self, socket_exists: bool, waited_ms: u64) -> (WorkerModel, Effects) {
        match self.poll_step(socket_exists, waited_ms) {
            WaitStep::Proceed => (WorkerModel { socket_seen: true, ..self }, Effects::none()),
            WaitStep::Sleep(_) => (self, Effects::none()),
            WaitStep::TimedOut => self.aborted(),
        }
    }

    /// The first request came back, or failed. Where it was due, a request
    /// that came back hands the worker out, which makes a worker `Ready` that
    /// holds its process, and a request that failed gives the start up. Where
    /// none was due, nothing changes.
    pub open spec fn warmed(self, came_back: bool) -> (WorkerModel, Effects) {
        if !self.awaits_answer() {
            (self, Effects::none())
        } else if !came_back {
            self.aborted()
        } else if self.process_held {
            (WorkerModel { state: WorkerState::Ready, handed_out: true, ..self }, Effects::none())
        } else {
            (WorkerModel { handed_out: true, ..self }, Effects::none())
        }
    }

    /// A listener can still be taken on: the end was not reported yet, and a
    /// ticket is left.
    pub open spec fn takes_listeners(self) -> bool {
        !self.exit_reported && self.next_ticket < u64::MAX
    }

    /// Someone asks to hear of the end of the process.
    pub open spec fn subscribed(self) -> (WorkerModel, Option<u64>) {
        if self.takes_listeners() {
            (
                WorkerModel {
                    listeners: self.listeners.push(self.next_ticket),
                    next_ticket: (self.next_ticket + 1) as u64,
                    ..self
                },
                Some(self.next_ticket),
            )
        } else {
            (self, None)
        }
    }

    /// How the process is asked to stop: not at all where there is none, by
    /// an interrupt where the platform has one, else by killing it.
    pub open spec fn stop_signal(self, graceful_stop_supported: bool) -> StopSignal {
        if !self.process_held {
            StopSignal::Nothing
        } else if graceful_stop_supported {
            StopSignal::Interrupt
        } else {
            StopSignal::Kill
        }
    }
}

/// What can happen to a worker.
pub enum Event {
    /// The process was started.
    ProcessStarted,
    /// The process could not be started.
    StartFailed,
    /// The caller looked for the socket file.
    SocketPolled { socket_exists: bool, waited_ms: u64 },
    /// The first request came back, or failed.
    WarmedUp { came_back: bool },
    /// The caller terminates the worker.
    Terminate,
    /// Waiting for the process came to an end.
    ProcessExited { waited: WaitResult },
    /// Someone asks to hear of the end of the process.
    OnExit,
}

impl WorkerModel {
    /// The worker after `event`, and what the caller is to do.
    pub open spec fn after(self, event: Event) -> (WorkerModel, Effects) {
        match event {
            Event::ProcessStarted => (self.started(), Effects::none()),
            Event::StartFailed => (self.start_failed(), Effects::none()),
            Event::SocketPolled { socket_exists, waited_ms } => self.polled(
                socket_exists,
                waited_ms,
            ),
            Event::WarmedUp { came_back } => self.warmed(came_back),
            Event::Terminate => self.terminated(),
            Event::ProcessExited { waited } => self.exited(waited),
            Event::OnExit => (self.subscribed().0, Effects::none()),
        }
    }

    /// The worker after all of `events`, in order.
    pub open spec fn after_all(self, events: Seq<Event>) -> WorkerModel
        decreases events.len(),
    {
        if events.len() == 0 {
            self
        } else {
            self.after_all(events.drop_last()).after(events.last()).0
        }
    }

    /// How often the caller is asked to kill the process in the course of
    /// `events`.
    pub open spec fn kills(self, events: Seq<Event>) -> nat
        decreases events.len(),
    {
        if events.len() == 0 {
            0
        } else {
            let before = self.after_all(events.drop_last());
            let now: nat = if before.after(events.last()).1.kill_process {
                1
            } else {
                0
            };
            self.kills(events.drop_last()) + now
        }
    }

    /// How often the end of the process is reported in the course of
    /// `events`.
    pub open spec fn reports(self, events: Seq<Event>) -> nat
        decreases events.len(),
    {
        if events.len() == 0 {
            0
        } else {
            let before = self.after_all(events.drop_last());
            let now: nat = if before.after(events.last()).1.notice is Some {
                1
            } else {
                0
            };
            self.reports(events.drop_last()) + now
        }
    }
}

/// Whatever happens to a worker leaves it a worker.
pub proof fn events_keep_a_worker_sound(worker: WorkerModel, event: Event)
    requires
        worker.wf(),
    ensures
        worker.after(event).0.wf(),
        worker.after(event).0.socket_path == worker.socket_path,
{
}

/// A worker stays sound through all that can happen to it from its making
/// on: its slot holds a process only while it is `Starting` or `Ready`, a
/// `Ready` worker holds one, and nobody is left waiting once the end was
/// reported.
pub proof fn every_worker_is_sound(socket_path: Seq<char>, events: Seq<Event>)
    requires
        utf8_len(socket_path) <= MAX_SOCKET_PATH_BYTES,
    ensures
        WorkerModel::fresh(socket_path).after_all(events).wf(),
    decreases events.len(),
{
    if events.len() > 0 {
        every_worker_is_sound(socket_path, events.drop_last());
        events_keep_a_worker_sound(
            WorkerModel::fresh(socket_path).after_all(events.drop_last()),
            events.last(),
        );
    }
}

/// The end of the process is reported at most once, whatever happens and in
/// whatever order: once exactly where waiting for a process that was started
/// came to an end, never else.
pub proof fn end_is_reported_at_most_once(socket_path: Seq<char>, events: Seq<Event>)
    requires
        utf8_len(socket_path) <= MAX_SOCKET_PATH_BYTES,
    ensures
        WorkerModel::fresh(socket_path).reports(events) <= 1,
        WorkerModel::fresh(socket_path).reports(events) == 1 <==> WorkerModel::fresh(
            socket_path,
        ).after_all(events).exit_reported,
    decreases events.len(),
{
    if events.len() > 0 {
        end_is_reported_at_most_once(socket_path, events.drop_last());
        every_worker_is_sound(socket_path, events.drop_last());
    }
}

/// Terminating a worker twice does no more than terminating it once: the
/// second time leaves the worker as it is, kills nothing, removes nothing
/// and reports nothing.
pub proof fn terminating_twice_is_silent(worker: WorkerModel)
    requires
        worker.wf(),
    ensures
        worker.terminated().0.terminated().0 == worker.terminated().0,
        worker.terminated().0.terminated().1 == Effects::none(),
{
}

/// The socket file does not outlive the process: whenever the slot is
/// emptied, the socket file is to be removed.
pub proof fn socket_goes_with_the_process(worker: WorkerModel, event: Event)
    requires
        worker.wf(),
        worker.process_held,
        !worker.after(event).0.process_held,
    ensures
        worker.after(event).1.remove_socket,
        worker.after(event).0.state is Exited,
{
}

/// Those who asked in time hear of the end of the process exactly once, and
/// those who ask later hear nothing: a report names every ticket that was
/// given out since the worker was made, each once, and after it no ticket is
/// given out.
pub proof fn listeners_hear_once(worker: WorkerModel, event: Event)
    requires
        worker.wf(),
    ensures
        worker.after(event).1.notice matches Some((_, heard)) ==> heard == worker.listeners
            && heard.no_duplicates() && worker.after(event).0.listeners.len() == 0,
        worker.exit_reported ==> worker.subscribed().1 is None && worker.subscribed().0 == worker,
        worker.subscribed().1 matches Some(ticket) ==> worker.subscribed().0.listeners.last()
            == ticket && !worker.listeners.contains(ticket),
{
}

/// Nothing that happens to a worker changes where its requests go: the path
/// of its socket file stays what it was when the worker was made. With the
/// contract of `request`, which makes each request of the socket path and of
/// the caller's own url, method, headers and body alone, this keeps every
/// request apart from all that were made before it.
pub proof fn requests_keep_their_target(worker: WorkerModel, events: Seq<Event>)
    requires
        worker.wf(),
    ensures
        worker.after_all(events).wf(),
        worker.after_all(events).socket_path == worker.socket_path,
        forall|url: Seq<char>,
            method: hyper::Method,
            headers: Seq<(Seq<char>, Seq<char>)>,
            body: Option<Seq<char>>|
            #[trigger] request_for(worker.after_all(events).socket_path, url, method, headers, body)
                == request_for(worker.socket_path, url, method, headers, body),
    decreases events.len(),
{
    if events.len() > 0 {
        requests_keep_their_target(worker, events.drop_last());
        events_keep_a_worker_sound(worker.after_all(events.drop_last()), events.last());
    }
}

/// The end of a process is reported by the end of the wait for it, and by
/// nothing else. Whatever else happens reports nothing and leaves waiting
/// who waits. The end of the wait for a process that was started reports
/// once, to all who wait, what waiting gave, and has the socket file removed,
/// whether the process ended by itself or the worker was terminated before.
/// A second end of the wait, and one without a process, does nothing.
pub proof fn the_wait_reports_the_end(worker: WorkerModel, event: Event, waited: WaitResult)
    requires
        worker.wf(),
    ensures
        !(event is ProcessExited) ==> worker.after(event).1.notice is None && worker.after(
            event,
        ).0.exit_reported == worker.exit_reported,
        !(event is ProcessExited) && !(event is OnExit) ==> worker.after(event).0.listeners
            == worker.listeners,
        worker.awaits_end() ==> worker.exited(waited).1 == (Effects {
            kill_process: false,
            remove_socket: true,
            notice: Some((exit_outcome_of(waited), worker.listeners)),
        }) && worker.exited(waited).0.exit_reported && !worker.exited(waited).0.process_held
            && worker.exited(waited).0.state is Exited,
        !worker.awaits_end() ==> worker.exited(waited) == (worker, Effects::none()),
{
}

/// Terminating a worker asks for the kill and leaves the report to the end
/// of the wait. The process is to be killed and the socket file removed at
/// once, nothing is reported, and who waits goes on waiting. Who asks to
/// hear of the end after that, and before waiting has come to an end, is
/// still taken on. The end of the wait then reports to all of them what
/// waiting gave.
pub proof fn terminate_leaves_the_report_to_the_wait(worker: WorkerModel, waited: WaitResult)
    requires
        worker.wf(),
        worker.process_held,
    ensures
        worker.terminated().1 == (Effects {
            kill_process: true,
            remove_socket: true,
            notice: None,
        }),
        ({
            let gone = worker.terminated().0;
            &&& gone.wf()
            &&& gone.state is Exited
            &&& !gone.process_held
            &&& gone.awaits_end()
            &&& gone.listeners == worker.listeners
            &&& gone.takes_listeners() == worker.takes_listeners()
            &&& gone.exited(waited).1.notice == Some((exit_outcome_of(waited), worker.listeners))
            &&& gone.exited(waited).1.remove_socket
            &&& gone.subscribed().1 matches Some(ticket) ==> gone.subscribed().0.exited(
                waited,
            ).1.notice == Some((exit_outcome_of(waited), worker.listeners.push(ticket)))
        }),
{
}

/// The events of a start in which every look misses the socket file: one
/// look for each of `waits`, after so many milliseconds of waiting.
pub open spec fn missing_looks(waits: Seq<u64>) -> Seq<Event> {
    Seq::new(
        waits.len(),
        |i: int| Event::SocketPolled { socket_exists: false, waited_ms: waits[i] },
    )
}

/// What happens in a start, in order: the process is started, then come the
/// looks that miss the socket file, then what follows them.
pub open spec fn start_events(waits: Seq<u64>, then: Seq<Event>) -> Seq<Event> {
    seq![Event::ProcessStarted] + missing_looks(waits) + then
}

/// One look more at the end of a start is one event more.
proof fn lemma_one_more_look(waits: Seq<u64>)
    requires
        waits.len() > 0,
    ensures
        start_events(waits, Seq::empty()).drop_last() == start_events(
            waits.drop_last(),
            Seq::empty(),
        ),
        start_events(waits, Seq::empty()).last() == (Event::SocketPolled {
            socket_exists: false,
            waited_ms: waits.last(),
        }),
        start_events(waits, Seq::empty()).len() == waits.len() + 1,
{
    let all = start_events(waits, Seq::empty());
    let fewer = start_events(waits.drop_last(), Seq::empty());
    assert(all.drop_last() =~= fewer);
    assert(all.last() == missing_looks(waits)[waits.len() - 1]);
}

/// A start through its looks: while no look came after the time was used
/// up, the worker holds its process and nothing was asked of the caller;
/// after one that did, the start is given up for good and the kill was asked
/// for once.
proof fn lemma_start_through_looks(socket_path: Seq<char>, waits: Seq<u64>)
    requires
        utf8_len(socket_path) <= MAX_SOCKET_PATH_BYTES,
    ensures
        ({
            let fresh = WorkerModel::fresh(socket_path);
            let events = start_events(waits, Seq::empty());
            let worker = fresh.after_all(events);
            let in_time = forall|i: int| 0 <= i < waits.len() ==> #[trigger] waits[i]
                < SOCKET_WAIT_TIMEOUT_MS;
            &&& worker.wf()
            &&& fresh.reports(events) == 0
            &&& in_time ==> worker == fresh.started() && fresh.kills(events) == 0
            &&& !in_time ==> worker.given_up && worker.state is Exited && !worker.process_held
                && !worker.accepts_requests() && !worker.awaits_answer() && fresh.kills(events)
                == 1
        }),
    decreases waits.len(),
{
    let fresh = WorkerModel::fresh(socket_path);
    let events = start_events(waits, Seq::empty());
    if waits.len() == 0 {
        assert(events =~= seq![Event::ProcessStarted]);
        assert(events.drop_last() =~= Seq::<Event>::empty());
        assert(fresh.after_all(events.drop_last()) == fresh);
        assert(fresh.reports(events.drop_last()) == 0);
        assert(fresh.kills(events.drop_last()) == 0);
        assert(events.last() == Event::ProcessStarted);
    } else {
        lemma_one_more_look(waits);
        lemma_start_through_looks(socket_path, waits.drop_last());
        let before = waits.drop_last();
        assert forall|i: int| 0 <= i < before.len() implies before[i] == waits[i] by {}
        if forall|i: int| 0 <= i < before.len() ==> #[trigger] before[i] < SOCKET_WAIT_TIMEOUT_MS {
            if waits.last() < SOCKET_WAIT_TIMEOUT_MS {
                assert forall|i: int| 0 <= i < waits.len() implies #[trigger] waits[i]
                    < SOCKET_WAIT_TIMEOUT_MS by {
                    if i < before.len() {
                        assert(before[i] == waits[i]);
                    }
                }
            } else {
                assert(!(waits[waits.len() - 1] < SOCKET_WAIT_TIMEOUT_MS));
            }
        } else {
            let i = choose|i: int|
                0 <= i < before.len() && !(#[trigger] before[i] < SOCKET_WAIT_TIMEOUT_MS);
            assert(!(waits[i] < SOCKET_WAIT_TIMEOUT_MS));
        }
    }
}

/// The worker after two runs of events is the worker after the second run,
/// begun where the first run ended.
proof fn lemma_after_both(worker: WorkerModel, first: Seq<Event>, second: Seq<Event>)
    ensures
        worker.after_all(first + second) == worker.after_all(first).after_all(second),
    decreases second.len(),
{
    if second.len() == 0 {
        assert(first + second =~= first);
    } else {
        assert((first + second).drop_last() =~= first + second.drop_last());
        assert((first + second).last() == second.last());
        lemma_after_both(worker, first, second.drop_last());
    }
}

/// A start that succeeds makes the worker `Ready`. The process is started;
/// any number of looks miss the socket file, each before the time is used
/// up; then a look finds the socket file, however late; then the first
/// request comes back. After that the worker is `Ready`, holds its process
/// and accepts requests, and no request was due before the socket file was
/// seen.
pub proof fn start_that_succeeds_makes_ready(
    socket_path: Seq<char>,
    waits: Seq<u64>,
    found_after_ms: u64,
)
    requires
        utf8_len(socket_path) <= MAX_SOCKET_PATH_BYTES,
        forall|i: int| 0 <= i < waits.len() ==> #[trigger] waits[i] < SOCKET_WAIT_TIMEOUT_MS,
    ensures
        ({
            let fresh = WorkerModel::fresh(socket_path);
            let waiting = fresh.after_all(start_events(waits, Seq::empty()));
            let found = Event::SocketPolled { socket_exists: true, waited_ms: found_after_ms };
            let answered = Event::WarmedUp { came_back: true };
            let ready = fresh.after_all(start_events(waits, seq![found, answered]));
            &&& !waiting.awaits_answer() && !waiting.accepts_requests()
            &&& waiting.poll_step(true, found_after_ms) == WaitStep::Proceed
            &&& waiting.after(found).0.awaits_answer()
            &&& ready.wf()
            &&& ready.state is Ready
            &&& ready.process_held
            &&& ready.accepts_requests()
        }),
{
    let fresh = WorkerModel::fresh(socket_path);
    let found = Event::SocketPolled { socket_exists: true, waited_ms: found_after_ms };
    let answered = Event::WarmedUp { came_back: true };
    let looks = start_events(waits, Seq::empty());
    let tail = seq![found, answered];
    lemma_start_through_looks(socket_path, waits);
    assert(start_events(waits, tail) =~= looks + tail);
    lemma_after_both(fresh, looks, tail);
    let waiting = fresh.after_all(looks);
    assert(tail.drop_last() =~= seq![found]);
    assert(seq![found].drop_last() =~= Seq::<Event>::empty());
    assert(waiting.after_all(Seq::<Event>::empty()) == waiting);
    assert(waiting.after_all(seq![found]) == waiting.after(found).0);
    assert(tail.last() == answered);
    assert(waiting.after_all(tail) == waiting.after(found).0.after(answered).0);
}

/// A start in which the socket file never appears ends in `SocketTimeout`
/// and leaves no process. The process is started, and every look misses the
/// socket file; as soon as one of them comes after the time is used up, the
/// start is given up: the worker is `Exited`, its slot is empty, the caller
/// was asked once to kill the process, and no request is due or accepted,
/// then or ever after. While every look came in time, the worker waits on
/// with its process, and nothing was asked of the caller.
pub proof fn start_without_socket_is_given_up(
    socket_path: Seq<char>,
    waits: Seq<u64>,
    later: Seq<Event>,
)
    requires
        utf8_len(socket_path) <= MAX_SOCKET_PATH_BYTES,
    ensures
        ({
            let fresh = WorkerModel::fresh(socket_path);
            let events = start_events(waits, Seq::empty());
            let worker = fresh.after_all(events);
            let in_time = forall|i: int| 0 <= i < waits.len() ==> #[trigger] waits[i]
                < SOCKET_WAIT_TIMEOUT_MS;
            &&& in_time ==> worker == fresh.started() && fresh.kills(events) == 0
            &&& !in_time ==> {
                &&& worker.given_up
                &&& worker.state is Exited
                &&& !worker.process_held
                &&& fresh.kills(events) == 1
                &&& fresh.reports(events) == 0
                &&& !worker.after_all(later).accepts_requests()
                &&& !worker.after_all(later).awaits_answer()
                &&& !worker.after_all(later).process_held
            }
        }),
{
    lemma_start_through_looks(socket_path, waits);
    let worker = WorkerModel::fresh(socket_path).after_all(start_events(waits, Seq::empty()));
    if worker.given_up {
        given_up_start_is_final(worker, later);
        exited_is_final(worker, later);
    }
}

/// A start in which the process comes up, the socket file is seen and the
/// first request comes back ends with a worker that is `Ready` and accepts
/// requests, however long the socket file took.
pub proof fn good_start_makes_ready(socket_path: Seq<char>, waited_ms: u64)
    requires
        utf8_len(socket_path) <= MAX_SOCKET_PATH_BYTES,
    ensures
        ({
            let started = WorkerModel::fresh(socket_path).started();
            let (seen, effects) = started.polled(true, waited_ms);
            let (ready, _) = seen.warmed(true);
            &&& started.poll_step(true, waited_ms) == WaitStep::Proceed
            &&& effects == Effects::none()
            &&& seen.awaits_answer()
            &&& ready.state is Ready
            &&& ready.accepts_requests()
            &&& ready.wf()
        }),
{
}

/// A start in which the socket file never appears is given up when the time
/// is used up: the worker is `Exited`, its slot is empty, and a process that
/// it held is to be killed and its socket file removed. Before that the
/// worker is left as it is, and no request is due or accepted.
pub proof fn missing_socket_ends_the_start(worker: WorkerModel, waited_ms: u64)
    requires
        worker.wf(),
        !worker.socket_seen,
    ensures
        !worker.awaits_answer() && !worker.accepts_requests(),
        waited_ms < SOCKET_WAIT_TIMEOUT_MS ==> worker.polled(false, waited_ms).0 == worker,
        waited_ms >= SOCKET_WAIT_TIMEOUT_MS ==> ({
            let (after, effects) = worker.polled(false, waited_ms);
            &&& worker.poll_step(false, waited_ms) == WaitStep::TimedOut
            &&& after.state is Exited
            &&& !after.process_held
            &&& !after.accepts_requests()
            &&& worker.process_held ==> effects.kill_process && effects.remove_socket
        }),
{
}

/// No request goes out before the socket file was seen: whatever happens to
/// a worker from its making on, a first request is due and later requests
/// are accepted only after a look that found the socket file.
pub proof fn no_request_before_the_socket(socket_path: Seq<char>, events: Seq<Event>)
    requires
        utf8_len(socket_path) <= MAX_SOCKET_PATH_BYTES,
    ensures
        ({
            let worker = WorkerModel::fresh(socket_path).after_all(events);
            &&& worker.awaits_answer() || worker.accepts_requests() ==> worker.socket_seen
            &&& worker.socket_seen ==> exists|i: int|
                0 <= i < events.len() && (#[trigger] events[i] matches Event::SocketPolled {
                    socket_exists: true,
                    ..
                })
        }),
    decreases events.len(),
{
    every_worker_is_sound(socket_path, events);
    if events.len() > 0 {
        let before = events.drop_last();
        no_request_before_the_socket(socket_path, before);
        every_worker_is_sound(socket_path, before);
        let worker = WorkerModel::fresh(socket_path).after_all(before);
        let now = worker.after(events.last()).0;
        if now.socket_seen {
            if worker.socket_seen {
                let i = choose|i: int|
                    0 <= i < before.len() && (#[trigger] before[i] matches Event::SocketPolled {
                        socket_exists: true,
                        ..
                    });
                assert(events[i] == before[i]);
            } else {
                assert(events[events.len() - 1] == events.last());
            }
        }
    }
}

/// A start that was given up is final: whatever happens afterwards, the
/// worker is not handed out, no first request is due, no request is
/// accepted, and every look for the socket file is answered with giving up.
pub proof fn given_up_start_is_final(worker: WorkerModel, events: Seq<Event>)
    requires
        worker.wf(),
        worker.given_up,
    ensures
        worker.after_all(events).wf(),
        worker.after_all(events).given_up,
        worker.after_all(events).state is Exited,
        !worker.after_all(events).handed_out,
        !worker.after_all(events).awaits_answer(),
        !worker.after_all(events).accepts_requests(),
        forall|socket_exists: bool, waited_ms: u64|
            #[trigger] worker.after_all(events).poll_step(socket_exists, waited_ms)
                == WaitStep::TimedOut,
    decreases events.len(),
{
    if events.len() > 0 {
        given_up_start_is_final(worker, events.drop_last());
        events_keep_a_worker_sound(worker.after_all(events.drop_last()), events.last());
    }
}

/// A failed start leaves no usable worker: after the process could not be
/// started, after the socket file did not appear in time, and after the
/// first request failed, the start is given up.
pub proof fn failed_start_is_given_up(worker: WorkerModel, waited_ms: u64)
    requires
        worker.wf(),
        !worker.handed_out,
    ensures
        worker.state is Starting && !worker.process_held ==> worker.start_failed().given_up,
        !worker.socket_seen && waited_ms >= SOCKET_WAIT_TIMEOUT_MS ==> worker.polled(
            false,
            waited_ms,
        ).0.given_up,
        worker.awaits_answer() ==> worker.warmed(false).0.given_up,
{
}

/// A worker that is `Exited` stays so, and never holds a process again: one
/// worker supervises one process.
pub proof fn exited_is_final(worker: WorkerModel, events: Seq<Event>)
    requires
        worker.wf(),
        worker.state is Exited,
    ensures
        worker.after_all(events).state is Exited,
        !worker.after_all(events).process_held,
        worker.after_all(events).wf(),
    decreases events.len(),
{
    if events.len() > 0 {
        exited_is_final(worker, events.drop_last());
        events_keep_a_worker_sound(worker.after_all(events.drop_last()), events.last());
    }
}

/// The supervisor of one runtime process.
#[derive(Debug)]
pub struct DenoHTTPWorker {
    socket_path: String,
    launch: LaunchPlan,
    state: WorkerState,
    spawned: bool,
    process_held: bool,
    socket_seen: bool,
    handed_out: bool,
    given_up: bool,
    exit_reported: bool,
    listeners: Vec<u64>,
    next_ticket: u64,
}

impl View for DenoHTTPWorker {
    type V = WorkerModel;

    closed spec fn view(&self) -> WorkerModel {
        WorkerModel {
            socket_path: self.socket_path@,
            state: self.state,
            spawned: self.spawned,
            process_held: self.process_held,
            socket_seen: self.socket_seen,
            handed_out: self.handed_out,
            given_up: self.given_up,
            exit_reported: self.exit_reported,
            listeners: self.listeners@,
            next_ticket: self.next_ticket,
        }
    }
}

impl DenoHTTPWorker {
    /// The command that starts the runtime of this worker.
    pub closed spec fn launch_command(&self) -> Seq<char> {
        self.launch.command@
    }

    /// The arguments of that command.
    pub closed spec fn launch_arguments(&self) -> Seq<Seq<char>> {
        texts(self.launch.arguments@)
    }

    /// A worker that will run the source text `script`, with its socket file
    /// in the directory `temp_dir`. The name of the socket file is drawn by
    /// chance, so that no two workers share one.
    pub fn new(script: &str, options: DenoWorkerOptions, temp_dir: &str) -> (worker: DenoHTTPWorker)
        requires
            options.names_command(),
            utf8_len(temp_dir@) <= MAX_TEMP_DIR_BYTES,
        ensures
            worker@.wf(),
            exists|id: Seq<char>|
                is_worker_id(id) && worker@ == WorkerModel::fresh(
                    #[trigger] socket_path_text(temp_dir@, id),
                ),
            worker.launch_command() == options.deno_executable@[0]@,
            worker.launch_arguments() == script_launch(options, worker@.socket_path, script@),
    {
        let socket_file = fresh_socket_path(temp_dir);
        DenoHTTPWorker::with_socket(socket_file, script, options)
    }

    /// A worker that will import the module at `url`, with its socket file
    /// in the directory `temp_dir`. The name of the socket file is drawn by
    /// chance, so that no two workers share one.
    pub fn new_from_url(url: &str, options: DenoWorkerOptions, temp_dir: &str) -> (worker:
        DenoHTTPWorker)
        requires
            options.names_command(),
            utf8_len(temp_dir@) <= MAX_TEMP_DIR_BYTES,
        ensures
            worker@.wf(),
            exists|id: Seq<char>|
                is_worker_id(id) && worker@ == WorkerModel::fresh(
                    #[trigger] socket_path_text(temp_dir@, id),
                ),
            worker.launch_command() == options.deno_executable@[0]@,
            worker.launch_arguments() == import_launch(options, worker@.socket_path, url@),
    {
        let socket_file = fresh_socket_path(temp_dir);
        DenoHTTPWorker::with_socket_from_url(socket_file, url, options)
    }

    /// A worker that will run the source text `script` and listen on
    /// `socket_file`.
    pub fn with_socket(socket_file: String, script: &str, options: DenoWorkerOptions) -> (worker:
        DenoHTTPWorker)
        requires
            options.names_command(),
            utf8_len(socket_file@) <= MAX_SOCKET_PATH_BYTES,
        ensures
            worker@.wf(),
            worker@ == WorkerModel::fresh(socket_file@),
            worker.launch_command() == options.deno_executable@[0]@,
            worker.launch_arguments() == script_launch(options, socket_file@, script@),
    {
        let launch = script_launch_plan(&options, socket_file.as_str(), script);
        DenoHTTPWorker {
            socket_path: socket_file,
            launch,
            state: WorkerState::Starting,
            spawned: false,
            process_held: false,
            socket_seen: false,
            handed_out: false,
            given_up: false,
            exit_reported: false,
            listeners: Vec::new(),
            next_ticket: 0,
        }
    }

    /// A worker that will import the module at `url` and listen on
    /// `socket_file`.
    pub fn with_socket_from_url(
        socket_file: String,
        url: &str,
        options: DenoWorkerOptions,
    ) -> (worker: DenoHTTPWorker)
        requires
            options.names_command(),
            utf8_len(socket_file@) <= MAX_SOCKET_PATH_BYTES,
        ensures
            worker@.wf(),
            worker@ == WorkerModel::fresh(socket_file@),
            worker.launch_command() == options.deno_executable@[0]@,
            worker.launch_arguments() == import_launch(options, socket_file@, url@),
    {
        let launch = import_launch_plan(&options, socket_file.as_str(), url);
        DenoHTTPWorker {
            socket_path: socket_file,
            launch,
            state: WorkerState::Starting,
            spawned: false,
            process_held: false,
            socket_seen: false,
            handed_out: false,
            given_up: false,
            exit_reported: false,
            listeners: Vec::new(),
            next_ticket: 0,
        }
    }

    /// The path of the socket file.
    pub fn socket_path(&self) -> (path: &str)
        ensures
            path@ == self@.socket_path,
    {
        self.socket_path.as_str()
    }

    /// The command that starts the runtime, and its arguments.
    pub fn launch_plan(&self) -> (plan: &LaunchPlan)
        ensures
            plan.command@ == self.launch_command(),
            texts(plan.arguments@) == self.launch_arguments(),
    {
        &self.launch
    }

    /// Where the worker stands in its life.
    pub fn state(&self) -> (state: WorkerState)
        ensures
            state == self@.state,
    {
        self.state
    }

    /// Tells the worker that its process was started.
    pub fn process_started(&mut self)
        requires
            old(self)@.wf(),
        ensures
            final(self)@ == old(self)@.started(),
            final(self)@.wf(),
            final(self).launch_command() == old(self).launch_command(),
            final(self).launch_arguments() == old(self).launch_arguments(),
    {
        if self.state == WorkerState::Starting && !self.spawned {
            self.spawned = true;
            self.process_held = true;
        }
    }

    /// Tells the worker that its process could not be started, and hands
    /// back the error with which the start ends.
    pub fn start_failed(&mut self, cause: std::io::Error) -> (error: DenoWorkerError)
        requires
            old(self)@.wf(),
        ensures
            final(self)@ == old(self)@.start_failed(),
            final(self)@.wf(),
            final(self).launch_command() == old(self).launch_command(),
            final(self).launch_arguments() == old(self).launch_arguments(),
            error == DenoWorkerError::Io(cause),
    {
        if self.state == WorkerState::Starting && !self.spawned {
            self.state = WorkerState::Exited;
            self.given_up = true;
        }
        DenoWorkerError::Io(cause)
    }

    /// Gives the start up, as `WorkerModel::aborted` says.
    fn abort(&mut self) -> (cleanup: Cleanup)
        requires
            old(self)@.wf(),
        ensures
            final(self)@ == old(self)@.aborted().0,
            cleanup@ == old(self)@.aborted().1,
            final(self)@.wf(),
            final(self).launch_command() == old(self).launch_command(),
            final(self).launch_arguments() == old(self).launch_arguments(),
    {
        if self.handed_out {
            Cleanup { kill_process: false, remove_socket: false, notice: None }
        } else {
            let cleanup = self.terminate();
            self.state = WorkerState::Exited;
            self.given_up = true;
            cleanup
        }
    }

    /// Tells the worker what a look for the socket file found after
    /// `waited_ms` milliseconds of waiting, and hands back what to do next.
    /// A socket file that was seen once lets the caller go on from then on.
    /// Where none was seen and the time is used up, the start is given up
    /// with the error `SocketTimeout`, and the process is to be killed. A
    /// start that was given up stays given up: every later look is answered
    /// with giving up, and nothing is left to do.
    pub fn socket_polled(&mut self, socket_exists: bool, waited_ms: u64) -> (next: Startup)
        requires
            old(self)@.wf(),
        ensures
            final(self)@ == old(self)@.polled(socket_exists, waited_ms).0,
            final(self)@.wf(),
            final(self).launch_command() == old(self).launch_command(),
            final(self).launch_arguments() == old(self).launch_arguments(),
            match next {
                Startup::Proceed => old(self)@.poll_step(socket_exists, waited_ms)
                    == WaitStep::Proceed,
                Startup::Sleep(pause) => old(self)@.poll_step(socket_exists, waited_ms)
                    == WaitStep::Sleep(pause),
                Startup::Abort(aborted) => {
                    &&& old(self)@.poll_step(socket_exists, waited_ms) == WaitStep::TimedOut
                    &&& aborted.error is SocketTimeout
                    &&& aborted.cleanup@ == old(self)@.polled(socket_exists, waited_ms).1
                },
            },
    {
        let step = if self.given_up {
            WaitStep::TimedOut
        } else {
            readiness_step(self.socket_seen || socket_exists, waited_ms)
        };
        match step {
            WaitStep::Proceed => {
                self.socket_seen = true;
                Startup::Proceed
            },
            WaitStep::Sleep(pause) => Startup::Sleep(pause),
            WaitStep::TimedOut => {
                let cleanup = self.abort();
                Startup::Abort(Aborted { error: DenoWorkerError::SocketTimeout, cleanup })
            },
        }
    }

    /// Tells whether the first request is due: the process was started, the
    /// socket file was seen, and the worker was neither handed out nor given
    /// up.
    pub fn awaits_answer(&self) -> (due: bool)
        ensures
            due == self@.awaits_answer(),
    {
        self.spawned && self.socket_seen && !self.handed_out && !self.given_up
    }

    /// Tells whether requests are accepted: the worker was handed out.
    pub fn accepts_requests(&self) -> (accepted: bool)
        ensures
            accepted == self@.accepts_requests(),
    {
        self.handed_out
    }

    /// The request that is sent once before the worker is handed out.
    pub fn warm_request(&self) -> (request: PreparedRequest)
        requires
            self@.wf(),
            self@.awaits_answer(),
        ensures
            request@ == warm_up_request(self@.socket_path),
    {
        PreparedRequest::warm_up(self.socket_path.as_str())
    }

    /// Tells the worker how the first request went. After one that came
    /// back, the worker is handed out, and `Ready` where it holds its
    /// process. After one that failed, the start is given up with the error
    /// of that request, and the process is to be killed.
    pub fn warmed_up(&mut self, outcome: Result<(), DenoWorkerError>) -> (done: Result<(), Aborted>)
        requires
            old(self)@.wf(),
            old(self)@.awaits_answer(),
        ensures
            final(self)@ == old(self)@.warmed(outcome is Ok).0,
            final(self)@.wf(),
            final(self).launch_command() == old(self).launch_command(),
            final(self).launch_arguments() == old(self).launch_arguments(),
            done is Ok <==> outcome is Ok,
            done is Ok ==> final(self)@.accepts_requests(),
            done matches Err(aborted) ==> outcome == Err::<(), DenoWorkerError>(aborted.error)
                && aborted.cleanup@ == old(self)@.warmed(false).1,
    {
        match outcome {
            Ok(()) => {
                self.handed_out = true;
                if self.process_held {
                    self.state = WorkerState::Ready;
                }
                Ok(())
            },
            Err(error) => {
                let cleanup = self.abort();
                Err(Aborted { error, cleanup })
            },
        }
    }

    /// Builds the request that carries the caller's `url`, `method`,
    /// `headers` and `body` to the runtime. The URL travels in the header
    /// `X-Deno-Worker-URL`; a header named `host` or `connection`, in any
    /// case of its letters, travels as `X-Deno-Worker-Host` or
    /// `X-Deno-Worker-Connection`; every other header travels as it is. The
    /// worker is left as it was, and nothing of one request enters another.
    pub fn request(
        &self,
        url: &str,
        method: hyper::Method,
        headers: Vec<(String, String)>,
        body: Option<String>,
    ) -> (request: PreparedRequest)
        requires
            self@.wf(),
            self@.accepts_requests(),
        ensures
            request@ == request_for(
                self@.socket_path,
                url@,
                method,
                header_texts(headers@),
                body_text(body),
            ),
    {
        PreparedRequest::build(self.socket_path.as_str(), url, method, headers, body)
    }

    /// Terminates the worker. Where the slot holds the process, the slot is
    /// emptied and the process is to be killed and the socket file removed; a
    /// worker without a process is left as it is, and nothing is to be done.
    /// The end of the process is not reported here: whoever waits for the
    /// process tells the worker when it has ended, and the report is made
    /// then.
    pub fn terminate(&mut self) -> (cleanup: Cleanup)
        requires
            old(self)@.wf(),
        ensures
            final(self)@ == old(self)@.terminated().0,
            cleanup@ == old(self)@.terminated().1,
            final(self)@.wf(),
            final(self).launch_command() == old(self).launch_command(),
            final(self).launch_arguments() == old(self).launch_arguments(),
    {
        if self.process_held {
            self.state = WorkerState::Exited;
            self.process_held = false;
            Cleanup { kill_process: true, remove_socket: true, notice: None }
        } else {
            Cleanup { kill_process: false, remove_socket: false, notice: None }
        }
    }

    /// Tells how the process is asked to stop by itself: by an interrupt
    /// where the platform has one, else by killing it. The worker is left as
    /// it is; the end of the process is seen by whoever waits for it.
    pub fn shutdown(&self, graceful_stop_supported: bool) -> (signal: StopSignal)
        ensures
            signal == self@.stop_signal(graceful_stop_supported),
    {
        if !self.process_held {
            StopSignal::Nothing
        } else if graceful_stop_supported {
            StopSignal::Interrupt
        } else {
            StopSignal::Kill
        }
    }

    /// Takes on someone who wants to hear of the end of the process, and
    /// hands back the ticket under which the report will name them; `None`
    /// where the end was reported already, or no ticket is left. Who asks
    /// after the worker was terminated and before the end of its process was
    /// reported is still taken on.
    pub fn on_exit(&mut self) -> (ticket: Option<u64>)
        requires
            old(self)@.wf(),
        ensures
            final(self)@ == old(self)@.subscribed().0,
            ticket == old(self)@.subscribed().1,
            final(self)@.wf(),
            final(self).launch_command() == old(self).launch_command(),
            final(self).launch_arguments() == old(self).launch_arguments(),
    {
        if self.exit_reported || self.next_ticket == u64::MAX {
            None
        } else {
            let ticket: u64 = self.next_ticket;
            self.listeners.push(ticket);
            self.next_ticket = ticket + 1;
            Some(ticket)
        }
    }

    /// Tells the worker that waiting for its process came to an end, and
    /// what waiting gave. The first time, the socket file is to be removed
    /// and the end is reported to all who asked to hear of it, whether the
    /// process ended by itself or was made to; a second time, and where no
    /// process was started, nothing changes and nothing is to be done. The
    /// caller removes the socket file before it passes the report on.
    pub fn process_exited(&mut self, waited: WaitResult) -> (cleanup: Cleanup)
        requires
            old(self)@.wf(),
        ensures
            final(self)@ == old(self)@.exited(waited).0,
            cleanup@ == old(self)@.exited(waited).1,
            final(self)@.wf(),
            final(self).launch_command() == old(self).launch_command(),
            final(self).launch_arguments() == old(self).launch_arguments(),
    {
        if self.spawned && !self.exit_reported {
            let mut listeners: Vec<u64> = Vec::new();
            std::mem::swap(&mut listeners, &mut self.listeners);
            self.state = WorkerState::Exited;
            self.process_held = false;
            self.exit_reported = true;
            Cleanup {
                kill_process: false,
                remove_socket: true,
                notice: Some(ExitNotice { outcome: classify_exit(waited), listeners }),
            }
        } else {
            Cleanup { kill_process: false, remove_socket: false, notice: None }
        }
    }
}

} // verus!
