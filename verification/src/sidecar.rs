//! Supervision of the local API server, a child process of which at most
//! one instance runs at a time.
//!
//! The supervisor decides; its caller acts. A granted start hands back what
//! to spawn, a granted stop hands back the handle to kill, and every
//! notification of the child is turned into the event to publish.

use crate::text::{decode_lossy, join, utf8_lossy};
use vstd::prelude::*;
use vstd::utf8::*;

verus! {

/// Name of the bundled process that serves the API.
pub const SIDECAR_NAME: &'static str = "openlinear-api";

/// Environment variable that tells the API server where its database is.
pub const DATABASE_URL_VAR: &'static str = "DATABASE_URL";

/// Name under which a line of output is published.
pub const OUTPUT_EVENT: &'static str = "sidecar:output";

/// Name under which the end of a run is published.
pub const EXIT_EVENT: &'static str = "sidecar:exit";

/// Reason for refusing a start.
pub const ALREADY_RUNNING: &'static str = "API server is already running";

/// Reason for refusing a stop.
pub const NOT_RUNNING: &'static str = "API server is not running";

/// Reason of a failed start where no command could be made; the cause follows.
pub const COMMAND_FAILED: &'static str = "Failed to create sidecar command: ";

/// Reason of a failed start where the spawn failed; the cause follows.
pub const SPAWN_FAILED: &'static str = "Failed to spawn API server: ";

/// Reason of a failed stop; the cause follows.
pub const KILL_FAILED: &'static str = "Failed to kill API server: ";

/// What a failure to read from the process is published with in front.
pub const ERROR_PREFIX: &'static str = "Error: ";

/// The stream that a line of output was read from.
#[derive(Clone, Copy, Debug, PartialEq, Eq, Structural)]
pub enum OutputStream {
    Stdout,
    Stderr,
}

impl OutputStream {
    /// The name of the stream as it is published.
    pub open spec fn label(self) -> Seq<char> {
        match self {
            OutputStream::Stdout => "stdout"@,
            OutputStream::Stderr => "stderr"@,
        }
    }

    /// The name of the stream as it is published.
    pub fn name(&self) -> (name: &'static str)
        ensures
            name@ == self.label(),
    {
        match self {
            OutputStream::Stdout => "stdout",
            OutputStream::Stderr => "stderr",
        }
    }
}

/// One line of captured output.
#[derive(Clone, Debug)]
pub struct SidecarOutput {
    pub stream: OutputStream,
    pub data: String,
}

/// The end of a run: the exit code, or the signal that ended it.
#[derive(Clone, Copy, Debug, PartialEq, Eq, Structural)]
pub struct SidecarExit {
    pub code: Option<i32>,
    pub signal: Option<i32>,
}

/// A notification from the channel of the child process.
#[derive(Clone, Debug)]
pub enum ProcessEvent {
    /// A line read from standard output, as raw bytes.
    Stdout(Vec<u8>),
    /// A line read from standard error, as raw bytes.
    Stderr(Vec<u8>),
    /// The process has ended.
    Terminated { code: Option<i32>, signal: Option<i32> },
    /// Reading from the process failed; the process may still be alive.
    Error(String),
    /// Any other notification.
    Other,
}

/// An event for the user interface.
#[derive(Clone, Debug)]
pub enum SidecarEvent {
    Output(SidecarOutput),
    Exit(SidecarExit),
}

/// A published event as a mathematical value.
pub enum EventView {
    Output { stream: OutputStream, data: Seq<char> },
    Exit { code: Option<i32>, signal: Option<i32> },
}

impl View for SidecarEvent {
    type V = EventView;

    open spec fn view(&self) -> EventView {
        match *self {
            SidecarEvent::Output(output) => EventView::Output {
                stream: output.stream,
                data: output.data@,
            },
            SidecarEvent::Exit(exit) => EventView::Exit { code: exit.code, signal: exit.signal },
        }
    }
}

impl SidecarEvent {
    /// The name under which the event is published.
    pub fn name(&self) -> (name: &'static str)
        ensures
            name@ == (match *self {
                SidecarEvent::Output(_) => OUTPUT_EVENT@,
                SidecarEvent::Exit(_) => EXIT_EVENT@,
            }),
    {
        match self {
            SidecarEvent::Output(_) => OUTPUT_EVENT,
            SidecarEvent::Exit(_) => EXIT_EVENT,
        }
    }
}

/// The event to publish, if any, as a mathematical value.
pub open spec fn published(publish: Option<SidecarEvent>) -> Option<EventView> {
    match publish {
        Some(event) => Some(event@),
        None => None,
    }
}

/// What the observer does with one notification.
#[derive(Clone, Debug)]
pub struct Observation {
    /// The event to publish, if the notification calls for one.
    pub publish: Option<SidecarEvent>,
    /// Whether the run is over: the slot is to be cleared and observing ends.
    pub finished: bool,
}

/// The event that a notification is published as.
///
/// Lines are decoded leniently, so every line yields an event. A failure
/// to read shows up as a line on standard error. Only the end of the
/// process yields an exit, and unknown notifications yield nothing.
pub open spec fn announcement(event: ProcessEvent) -> Option<EventView> {
    match event {
        ProcessEvent::Stdout(line) => Some(
            EventView::Output { stream: OutputStream::Stdout, data: utf8_lossy(line@) },
        ),
        ProcessEvent::Stderr(line) => Some(
            EventView::Output { stream: OutputStream::Stderr, data: utf8_lossy(line@) },
        ),
        ProcessEvent::Terminated { code, signal } => Some(EventView::Exit { code, signal }),
        ProcessEvent::Error(detail) => Some(
            EventView::Output { stream: OutputStream::Stderr, data: ERROR_PREFIX@ + detail@ },
        ),
        ProcessEvent::Other => None,
    }
}

/// The text of a line, where the line is well-formed UTF-8.
pub open spec fn plain_line(event: ProcessEvent) -> Option<Seq<char>> {
    match event {
        ProcessEvent::Stdout(line) if valid_utf8(line@) => Some(decode_utf8(line@)),
        ProcessEvent::Stderr(line) if valid_utf8(line@) => Some(decode_utf8(line@)),
        _ => None,
    }
}

/// Reads one notification of the child process.
pub fn observe(event: &ProcessEvent) -> (step: Observation)
    ensures
        published(step.publish) == announcement(*event),
        step.finished == (*event is Terminated),
        plain_line(*event) matches Some(text) ==> (step.publish matches Some(
            SidecarEvent::Output(output),
        ) && output.data@ == text),
{
    match event {
        ProcessEvent::Stdout(line) => {
            let data = decode_lossy(line.as_slice());
            let output = SidecarOutput { stream: OutputStream::Stdout, data };
            Observation { publish: Some(SidecarEvent::Output(output)), finished: false }
        },
        ProcessEvent::Stderr(line) => {
            let data = decode_lossy(line.as_slice());
            let output = SidecarOutput { stream: OutputStream::Stderr, data };
            Observation { publish: Some(SidecarEvent::Output(output)), finished: false }
        },
        ProcessEvent::Terminated { code, signal } => {
            let exit = SidecarExit { code: *code, signal: *signal };
            Observation { publish: Some(SidecarEvent::Exit(exit)), finished: true }
        },
        ProcessEvent::Error(detail) => {
            let data = join(ERROR_PREFIX, detail.as_str());
            let output = SidecarOutput { stream: OutputStream::Stderr, data };
            Observation { publish: Some(SidecarEvent::Output(output)), finished: false }
        },
        ProcessEvent::Other => Observation { publish: None, finished: false },
    }
}

/// Turns the notifications of one run into its stream of events: it
/// forwards what the notifications call for until the process has ended,
/// and nothing after that.
#[derive(Clone, Copy, Debug, PartialEq, Eq, Structural)]
pub struct Multiplexer {
    /// Whether the end of the process has been forwarded.
    pub closed: bool,
}

impl Multiplexer {
    /// The event forwarded for `event`, if any.
    pub open spec fn forwards(self, event: ProcessEvent) -> Option<EventView> {
        if self.closed {
            None
        } else {
            announcement(event)
        }
    }

    /// The multiplexer after `event`.
    pub open spec fn after(self, event: ProcessEvent) -> Multiplexer {
        Multiplexer { closed: self.closed || event is Terminated }
    }

    /// The events forwarded for `events`, in order.
    pub open spec fn stream(self, events: Seq<ProcessEvent>) -> Seq<EventView>
        decreases events.len(),
    {
        if events.len() == 0 {
            Seq::empty()
        } else {
            let rest = self.after(events[0]).stream(events.drop_first());
            match self.forwards(events[0]) {
                Some(event) => seq![event] + rest,
                None => rest,
            }
        }
    }

    /// A multiplexer for a run that has just begun.
    pub fn new() -> (fresh: Multiplexer)
        ensures
            !fresh.closed,
    {
        Multiplexer { closed: false }
    }

    /// Whether the run is over.
    pub fn is_closed(&self) -> (closed: bool)
        ensures
            closed == self.closed,
    {
        self.closed
    }

    /// Takes the next notification of the run and hands back the event to
    /// publish for it, if any.
    pub fn forward(&mut self, event: &ProcessEvent) -> (publish: Option<SidecarEvent>)
        ensures
            published(publish) == old(self).forwards(*event),
            *final(self) == old(self).after(*event),
            !old(self).closed ==> (plain_line(*event) matches Some(text) ==> (publish matches Some(
                SidecarEvent::Output(output),
            ) && output.data@ == text)),
    {
        if self.closed {
            None
        } else {
            let step = observe(event);
            self.closed = step.finished;
            step.publish
        }
    }
}

/// What to spawn for a granted start.
#[derive(Clone, Debug)]
pub struct SpawnRequest {
    /// Name of the bundled process.
    pub program: String,
    /// Variables to add to the environment that the process inherits.
    pub env: Vec<(String, String)>,
}

impl SpawnRequest {
    /// Whether this asks for the API server with exactly the variables
    /// `env`, in that order.
    pub open spec fn launches_with(&self, env: Seq<(Seq<char>, Seq<char>)>) -> bool {
        &&& self.program@ == SIDECAR_NAME@
        &&& self.env.deep_view() == env
    }

    /// Whether this asks for the API server with `database_url` as its
    /// database, and for nothing else.
    pub open spec fn launches(&self, database_url: Seq<char>) -> bool {
        self.launches_with(seq![(DATABASE_URL_VAR@, database_url)])
    }
}

/// Why a granted start did not lead to a running process.
#[derive(Clone, Debug)]
pub enum SpawnFailure {
    /// The command for the bundled process could not be put together.
    Command(String),
    /// The operating system did not start the process.
    Spawn(String),
}

impl SpawnFailure {
    /// The failure as it is reported to whoever asked for the start.
    pub open spec fn message(self) -> Seq<char> {
        match self {
            SpawnFailure::Command(cause) => COMMAND_FAILED@ + cause@,
            SpawnFailure::Spawn(cause) => SPAWN_FAILED@ + cause@,
        }
    }
}

/// The single slot that tracks the API server process.
///
/// `H` is the handle through which a running process is killed; the slot
/// owns it from the moment the process is spawned until the process is
/// stopped or seen to end.
#[derive(Debug)]
pub enum ProcessSlot<H> {
    /// No process, and none on its way.
    Idle,
    /// A start has been granted and its spawn has not reported back.
    Starting,
    /// The process runs, and this is its handle.
    Running(H),
}

impl<H> ProcessSlot<H> {
    /// Whether a start would be granted.
    pub open spec fn accepts_start(self) -> bool {
        self is Idle
    }

    /// Whether a stop would be granted.
    pub open spec fn accepts_stop(self) -> bool {
        self is Running
    }

    /// The slot after a request to start.
    pub open spec fn after_start(self) -> Self {
        if self.accepts_start() {
            ProcessSlot::Starting
        } else {
            self
        }
    }

    /// The slot after a spawn has succeeded with `handle`.
    pub open spec fn after_spawn(self, handle: H) -> Self {
        ProcessSlot::Running(handle)
    }

    /// The slot after a spawn has failed.
    pub open spec fn after_spawn_failure(self) -> Self {
        if self is Starting {
            ProcessSlot::Idle
        } else {
            self
        }
    }

    /// The slot after a request to stop.
    pub open spec fn after_stop(self) -> Self {
        if self.accepts_stop() {
            ProcessSlot::Idle
        } else {
            self
        }
    }

    /// The slot after the process has been seen to end.
    pub open spec fn after_exit(self) -> Self {
        if self is Running {
            ProcessSlot::Idle
        } else {
            self
        }
    }

    /// An empty slot.
    pub fn new() -> (slot: Self)
        ensures
            slot is Idle,
    {
        ProcessSlot::Idle
    }

    /// Whether the slot holds a running process.
    pub fn is_running(&self) -> (running: bool)
        ensures
            running == (*self is Running),
    {
        match self {
            ProcessSlot::Running(_) => true,
            _ => false,
        }
    }

    /// Asks to start the API server with the variables `env` added to the
    /// environment that it inherits.
    ///
    /// An empty slot grants the start and is reserved for it until the
    /// spawn reports back. Any other slot refuses and stays as it is.
    pub fn request_start_with_env(&mut self, env: Vec<(String, String)>) -> (granted: Result<
        SpawnRequest,
        String,
    >)
        ensures
            *final(self) == old(self).after_start(),
            old(self).accepts_start() ==> (granted matches Ok(request) && request.launches_with(
                env.deep_view(),
            )),
            !old(self).accepts_start() ==> (granted matches Err(reason) && reason@
                == ALREADY_RUNNING@),
    {
        match self {
            ProcessSlot::Idle => {
                *self = ProcessSlot::Starting;
                Ok(SpawnRequest { program: SIDECAR_NAME.to_owned(), env })
            },
            _ => Err(ALREADY_RUNNING.to_owned()),
        }
    }

    /// Asks to start the API server with `database_url` as its database,
    /// the one variable it cannot do without.
    pub fn request_start(&mut self, database_url: String) -> (granted: Result<SpawnRequest, String>)
        ensures
            *final(self) == old(self).after_start(),
            old(self).accepts_start() ==> (granted matches Ok(request) && request.launches(
                database_url@,
            )),
            !old(self).accepts_start() ==> (granted matches Err(reason) && reason@
                == ALREADY_RUNNING@),
    {
        let mut env: Vec<(String, String)> = Vec::new();
        env.push((DATABASE_URL_VAR.to_owned(), database_url));
        assert(env.deep_view() =~= seq![(DATABASE_URL_VAR@, database_url@)]);
        self.request_start_with_env(env)
    }

    /// Records that the granted start has spawned the process.
    pub fn spawn_succeeded(&mut self, handle: H)
        ensures
            *final(self) == old(self).after_spawn(handle),
    {
        *self = ProcessSlot::Running(handle);
    }

    /// Records that the granted start has failed, and words the failure.
    pub fn spawn_failed(&mut self, failure: &SpawnFailure) -> (reason: String)
        ensures
            *final(self) == old(self).after_spawn_failure(),
            reason@ == failure.message(),
    {
        if let ProcessSlot::Starting = self {
            *self = ProcessSlot::Idle;
        }
        match failure {
            SpawnFailure::Command(cause) => join(COMMAND_FAILED, cause.as_str()),
            SpawnFailure::Spawn(cause) => join(SPAWN_FAILED, cause.as_str()),
        }
    }

    /// Asks to stop the API server.
    ///
    /// A running process gives up its handle, which the caller is to kill;
    /// the slot is empty from then on, whatever becomes of the kill.
    /// Any other slot refuses and stays as it is.
    pub fn request_stop(&mut self) -> (granted: Result<H, String>)
        ensures
            *final(self) == old(self).after_stop(),
            *old(self) matches ProcessSlot::Running(handle) ==> granted == Ok::<H, String>(handle),
            !old(self).accepts_stop() ==> (granted matches Err(reason) && reason@
                == NOT_RUNNING@),
    {
        if self.is_running() {
            let mut taken = ProcessSlot::Idle;
            core::mem::swap(self, &mut taken);
            match taken {
                ProcessSlot::Running(handle) => Ok(handle),
                _ => Err(NOT_RUNNING.to_owned()),
            }
        } else {
            Err(NOT_RUNNING.to_owned())
        }
    }

    /// Records that the process has been seen to end.
    pub fn process_exited(&mut self)
        ensures
            *final(self) == old(self).after_exit(),
    {
        if self.is_running() {
            *self = ProcessSlot::Idle;
        }
    }
}

/// Words the failure of a kill for whoever asked for the stop.
pub fn kill_failed(cause: &str) -> (reason: String)
    ensures
        reason@ == KILL_FAILED@ + cause@,
{
    join(KILL_FAILED, cause)
}

/// Of two requests to start with no stop and no exit between them, only the
/// first is granted: the second is refused and changes nothing, both while
/// the spawn of the first is under way and after it has succeeded.
pub proof fn law_second_start_is_refused<H>(slot: ProcessSlot<H>, handle: H)
    requires
        slot.accepts_start(),
    ensures
        !slot.after_start().accepts_start(),
        slot.after_start().after_start() == slot.after_start(),
        !slot.after_start().after_spawn(handle).accepts_start(),
        slot.after_start().after_spawn(handle).after_start() == slot.after_start().after_spawn(
            handle,
        ),
{
}

/// A request to stop while no process runs is refused and changes nothing.
pub proof fn law_stop_needs_a_process<H>(slot: ProcessSlot<H>)
    requires
        !(slot is Running),
    ensures
        !slot.accepts_stop(),
        slot.after_stop() == slot,
{
}

/// Once a running process has been stopped or seen to end, the slot is
/// empty: the next request to start is granted, and a second clearing
/// changes nothing.
pub proof fn law_cleared_slot_accepts_start<H>(slot: ProcessSlot<H>)
    requires
        slot is Running,
    ensures
        slot.after_exit().accepts_start(),
        slot.after_stop().accepts_start(),
        slot.after_exit().after_stop() == slot.after_exit(),
        slot.after_stop().after_exit() == slot.after_stop(),
{
}

/// A start whose spawn fails leaves the slot as empty as it found it.
pub proof fn law_failed_spawn_frees_slot<H>(slot: ProcessSlot<H>)
    requires
        slot.accepts_start(),
    ensures
        slot.after_start().after_spawn_failure() == slot,
{
}

/// The end of a process is published as one exit that carries the code and
/// the signal as they were reported, and it ends the observation; no other
/// notification does either.
pub proof fn law_exit_is_terminal(event: ProcessEvent)
    ensures
        event matches ProcessEvent::Terminated { code, signal } ==> announcement(event) == Some(
            EventView::Exit { code, signal },
        ),
        !(event is Terminated) ==> !(announcement(event) matches Some(EventView::Exit { .. })),
{
}

/// A closed multiplexer forwards nothing.
pub proof fn law_closed_stream_is_empty(events: Seq<ProcessEvent>)
    ensures
        (Multiplexer { closed: true }).stream(events) == Seq::<EventView>::empty(),
    decreases events.len(),
{
    if events.len() > 0 {
        law_closed_stream_is_empty(events.drop_first());
    }
}

/// Nothing follows an exit: in the stream of a run, an exit stands only in
/// the last place, so there is at most one.
pub proof fn law_exit_is_last(events: Seq<ProcessEvent>, at: int)
    requires
        0 <= at < (Multiplexer { closed: false }).stream(events).len(),
        (Multiplexer { closed: false }).stream(events)[at] is Exit,
    ensures
        at == (Multiplexer { closed: false }).stream(events).len() - 1,
    decreases events.len(),
{
    let open = Multiplexer { closed: false };
    let rest = events.drop_first();
    if events[0] is Terminated {
        law_closed_stream_is_empty(rest);
    } else if announcement(events[0]) is Some {
        if at > 0 {
            law_exit_is_last(rest, at - 1);
        }
    } else {
        law_exit_is_last(rest, at);
    }
}

/// A run that ends publishes its exit, and publishes it last: the stream
/// closes with what the first notification of an end calls for.
pub proof fn law_run_ends_with_its_exit(events: Seq<ProcessEvent>, at: int)
    requires
        0 <= at < events.len(),
        events[at] is Terminated,
        forall|j: int| 0 <= j < at ==> !(#[trigger] events[j] is Terminated),
    ensures
        (Multiplexer { closed: false }).stream(events).len() > 0,
        Some((Multiplexer { closed: false }).stream(events).last()) == announcement(events[at]),
    decreases events.len(),
{
    let open = Multiplexer { closed: false };
    let rest = events.drop_first();
    if at == 0 {
        law_closed_stream_is_empty(rest);
        assert(open.after(events[0]) == Multiplexer { closed: true });
    } else {
        assert(!(events[0] is Terminated));
        assert(rest[at - 1] == events[at]);
        assert forall|j: int| 0 <= j < at - 1 implies !(#[trigger] rest[j] is Terminated) by {
            assert(rest[j] == events[j + 1]);
        }
        law_run_ends_with_its_exit(rest, at - 1);
        assert(open.after(events[0]) == open);
    }
}

/// Until the process ends, every line is forwarded, and in the order in
/// which the lines came: the stream of a run without an end is the
/// stream of its first part followed by that of the rest.
pub proof fn law_stream_keeps_order(first: Seq<ProcessEvent>, rest: Seq<ProcessEvent>)
    requires
        forall|i: int| 0 <= i < first.len() ==> !(#[trigger] first[i] is Terminated),
    ensures
        (Multiplexer { closed: false }).stream(first + rest) == (Multiplexer {
            closed: false,
        }).stream(first) + (Multiplexer { closed: false }).stream(rest),
    decreases first.len(),
{
    let open = Multiplexer { closed: false };
    if first.len() == 0 {
        assert(first + rest =~= rest);
        assert(open.stream(first) =~= Seq::<EventView>::empty());
    } else {
        let whole = first + rest;
        assert(whole[0] == first[0]);
        assert(whole.drop_first() =~= first.drop_first() + rest);
        assert forall|i: int| 0 <= i < first.drop_first().len() implies !(
        #[trigger] first.drop_first()[i] is Terminated) by {
            assert(first.drop_first()[i] == first[i + 1]);
        }
        law_stream_keeps_order(first.drop_first(), rest);
        assert(open.after(first[0]) == open);
        assert(open.stream(whole) =~= open.stream(first) + open.stream(rest));
    }
}

} // verus!
