//! The way to a session: launch, readiness, connection, banner.
//!
//! A `Startup` says what to do next; the embedding program does it and reports
//! what came of it. Whatever fails, what is held is released before the
//! failure is returned.

use crate::config::{address, arguments, JSBSimProcessProperties, Properties};
use crate::framing::{last_response, next_response, Framed, LineBuffer};
use crate::protocol::{quit_line, Error, ErrorView};
use crate::session::{JSBSim, Session, Teardown, TeardownView};
use crate::text::{characters, contains, occurs_in};
use vstd::prelude::*;

verus! {

/// The words with which the simulator announces, on its standard output, that
/// its console is ready.
pub open spec fn ready_marker() -> Seq<char> {
    "JSBSim Execution beginning"@
}

/// What a startup is waiting for.
#[derive(Clone, Debug, PartialEq, Eq)]
pub enum Phase {
    /// The simulator to be spawned.
    Spawning,
    /// The simulator to announce readiness.
    Scanning,
    /// The connection to the console.
    Connecting,
    /// The console's banner.
    Handshaking,
    /// The release of what is held, after the failure that is kept here.
    Abandoning(Error),
}

/// What the embedding program reports.
#[derive(Clone, Copy, Debug, PartialEq, Eq)]
pub enum Event<'a> {
    /// The simulator was spawned.
    Spawned,
    /// A line of the simulator's standard output.
    Output(&'a str),
    /// The simulator's standard output ended.
    OutputEnded,
    /// The connection stands.
    Connected,
    /// Bytes that arrived from the console.
    Received(&'a [u8]),
    /// The console closed the stream.
    Closed,
    /// What was to be released is released.
    Released,
    /// The operation that was asked for failed.
    Failed,
}

/// What the embedding program is asked to do.
#[derive(Clone, Debug, PartialEq, Eq)]
pub enum Action {
    /// Spawn `program` with `arguments`, its standard output captured; report
    /// `Spawned`.
    Spawn { program: String, arguments: Vec<String> },
    /// Read one line of the simulator's standard output; report `Output` or
    /// `OutputEnded`.
    ReadOutput,
    /// Connect to the address, once; report `Connected`.
    Connect(String),
    /// Read from the console; report `Received` or `Closed`.
    Receive,
    /// Release as the plan says; report `Released` whatever came of it.
    Release(Teardown),
}

/// The state of a startup.
#[derive(Debug, PartialEq, Eq)]
pub struct Startup {
    phase: Phase,
    owns_process: bool,
    address: String,
    input: LineBuffer,
}

/// Where a step leads.
#[derive(Debug, PartialEq, Eq)]
pub enum Progress {
    /// The startup goes on after the action.
    Continue(Startup, Action),
    /// The session stands.
    Established(JSBSim),
    /// The startup failed, and nothing is held any more.
    Failed(Error),
}

/// The model of a `Phase`.
pub enum PhaseView {
    Spawning,
    Scanning,
    Connecting,
    Handshaking,
    Abandoning(ErrorView),
}

/// The model of an `Event`.
pub enum EventView {
    Spawned,
    Output(Seq<char>),
    OutputEnded,
    Connected,
    Received(Seq<u8>),
    Closed,
    Released,
    Failed,
}

/// The model of an `Action`.
pub enum ActionView {
    Spawn { program: Seq<char>, arguments: Seq<Seq<char>> },
    ReadOutput,
    Connect(Seq<char>),
    Receive,
    Release(TeardownView),
}

/// The model of a `Startup`.
pub struct StartupView {
    pub phase: PhaseView,
    pub owns_process: bool,
    pub address: Seq<char>,
    pub buffered: Seq<u8>,
}

/// The model of a `Progress`.
pub enum ProgressView {
    Continue(StartupView, ActionView),
    Established(Session),
    Failed(ErrorView),
}

impl View for Phase {
    type V = PhaseView;

    open spec fn view(&self) -> PhaseView {
        match self {
            Phase::Spawning => PhaseView::Spawning,
            Phase::Scanning => PhaseView::Scanning,
            Phase::Connecting => PhaseView::Connecting,
            Phase::Handshaking => PhaseView::Handshaking,
            Phase::Abandoning(cause) => PhaseView::Abandoning(cause@),
        }
    }
}

impl<'a> View for Event<'a> {
    type V = EventView;

    open spec fn view(&self) -> EventView {
        match self {
            Event::Spawned => EventView::Spawned,
            Event::Output(line) => EventView::Output(line@),
            Event::OutputEnded => EventView::OutputEnded,
            Event::Connected => EventView::Connected,
            Event::Received(bytes) => EventView::Received(bytes@),
            Event::Closed => EventView::Closed,
            Event::Released => EventView::Released,
            Event::Failed => EventView::Failed,
        }
    }
}

impl View for Action {
    type V = ActionView;

    open spec fn view(&self) -> ActionView {
        match self {
            Action::Spawn { program, arguments } => ActionView::Spawn {
                program: program@,
                arguments: arguments.deep_view(),
            },
            Action::ReadOutput => ActionView::ReadOutput,
            Action::Connect(address) => ActionView::Connect(address@),
            Action::Receive => ActionView::Receive,
            Action::Release(plan) => ActionView::Release(plan@),
        }
    }
}

impl View for Startup {
    type V = StartupView;

    closed spec fn view(&self) -> StartupView {
        StartupView {
            phase: self.phase@,
            owns_process: self.owns_process,
            address: self.address@,
            buffered: self.input@,
        }
    }
}

impl View for Progress {
    type V = ProgressView;

    open spec fn view(&self) -> ProgressView {
        match self {
            Progress::Continue(startup, action) => ProgressView::Continue(startup@, action@),
            Progress::Established(session) => ProgressView::Established(session@),
            Progress::Failed(error) => ProgressView::Failed(error@),
        }
    }
}

/// The start of a session with a console that already listens at `address`.
pub open spec fn attach(address: Seq<char>) -> (StartupView, ActionView) {
    (
        StartupView {
            phase: PhaseView::Connecting,
            owns_process: false,
            address,
            buffered: Seq::empty(),
        },
        ActionView::Connect(address),
    )
}

/// The start of a session with a simulator that is launched for it.
pub open spec fn launch(p: Properties) -> (StartupView, ActionView) {
    (
        StartupView {
            phase: PhaseView::Spawning,
            owns_process: false,
            address: address(p),
            buffered: Seq::empty(),
        },
        ActionView::Spawn { program: p.executable_name, arguments: arguments(p) },
    )
}

/// The release of what `s` holds, on the way to the failure `cause`: the
/// `quit` line where the connection stands, the end of the simulator where this
/// client spawned it.
pub open spec fn abandon(s: StartupView, cause: ErrorView) -> ProgressView {
    ProgressView::Continue(
        StartupView { phase: PhaseView::Abandoning(cause), owns_process: false, ..s },
        ActionView::Release(
            TeardownView {
                quit: if s.phase is Handshaking {
                    Some(quit_line())
                } else {
                    None
                },
                terminate: s.owns_process,
            },
        ),
    )
}

/// The session that stands once the banner is read, with `rest` still unread.
pub open spec fn establish(s: StartupView, rest: Seq<u8>) -> ProgressView {
    ProgressView::Established(
        Session { buffered: rest, awaiting: None, owns_process: s.owns_process },
    )
}

/// Where the startup `s` goes when `event` is reported. An event that the
/// phase does not await counts as the failure of what it awaits.
pub open spec fn step(s: StartupView, event: EventView) -> ProgressView {
    match s.phase {
        PhaseView::Spawning => match event {
            EventView::Spawned => ProgressView::Continue(
                StartupView { phase: PhaseView::Scanning, owns_process: true, ..s },
                ActionView::ReadOutput,
            ),
            _ => abandon(s, ErrorView::Spawn),
        },
        PhaseView::Scanning => match event {
            EventView::Output(line) => if occurs_in(ready_marker(), line) {
                ProgressView::Continue(
                    StartupView { phase: PhaseView::Connecting, ..s },
                    ActionView::Connect(s.address),
                )
            } else {
                ProgressView::Continue(s, ActionView::ReadOutput)
            },
            EventView::OutputEnded => abandon(s, ErrorView::NotReady),
            _ => abandon(s, ErrorView::Io),
        },
        PhaseView::Connecting => match event {
            EventView::Connected => ProgressView::Continue(
                StartupView { phase: PhaseView::Handshaking, ..s },
                ActionView::Receive,
            ),
            _ => abandon(s, ErrorView::Io),
        },
        PhaseView::Handshaking => match event {
            EventView::Received(bytes) => match next_response(s.buffered + bytes) {
                Framed::Pending(rest) => ProgressView::Continue(
                    StartupView { buffered: rest, ..s },
                    ActionView::Receive,
                ),
                Framed::Line(_, rest) => establish(s, rest),
                Framed::NotText(rest) => abandon(
                    StartupView { buffered: rest, ..s },
                    ErrorView::NotText,
                ),
            },
            EventView::Closed => match last_response(s.buffered) {
                (Ok(_), rest) => establish(s, rest),
                (Err(cause), rest) => abandon(StartupView { buffered: rest, ..s }, cause),
            },
            _ => abandon(s, ErrorView::Io),
        },
        PhaseView::Abandoning(cause) => ProgressView::Failed(cause),
    }
}

/// Whether `s` holds a simulator only between its spawning and the request
/// to release it. Every startup does.
pub open spec fn coherent(s: StartupView) -> bool {
    s.phase is Spawning || s.phase is Abandoning ==> !s.owns_process
}

/// A startup begins coherent.
pub proof fn lemma_begins_coherent(address: Seq<char>, p: Properties)
    ensures
        coherent(attach(address).0),
        coherent(launch(p).0),
{
}

/// The banner comes first. A step makes the session only in the handshake,
/// and only when a response has arrived.
pub proof fn lemma_banner_first(s: StartupView, event: EventView)
    requires
        step(s, event) is Established,
    ensures
        s.phase is Handshaking,
        match event {
            EventView::Received(bytes) => next_response(s.buffered + bytes) is Line,
            EventView::Closed => last_response(s.buffered).0 is Ok,
            _ => false,
        },
{
}

/// No simulator is left behind. A step keeps a simulator that is held, hands
/// it on to the session, or asks for its end; and a startup fails only when it
/// holds none.
pub proof fn lemma_no_process_leak(s: StartupView, event: EventView)
    requires
        coherent(s),
    ensures
        match step(s, event) {
            ProgressView::Continue(next, action) => {
                &&& coherent(next)
                &&& s.owns_process && !next.owns_process ==> (action matches ActionView::Release(
                    plan,
                ) && plan.terminate)
            },
            ProgressView::Established(session) => session.owns_process == s.owns_process,
            ProgressView::Failed(_) => !s.owns_process,
        },
{
}

impl JSBSim {
    /// Starts a session with a console that already listens at `address`.
    pub fn new(address: &str) -> (r: (Startup, Action))
        ensures
            (r.0@, r.1@) == attach(address@),
    {
        (
            Startup {
                phase: Phase::Connecting,
                owns_process: false,
                address: address.to_owned(),
                input: LineBuffer::new(),
            },
            Action::Connect(address.to_owned()),
        )
    }

    /// Starts a session with a simulator that is launched as `properties` say.
    pub fn new_with_process(properties: JSBSimProcessProperties) -> (r: (Startup, Action))
        ensures
            (r.0@, r.1@) == launch(properties@),
    {
        let arguments = properties.arguments();
        let address = properties.address();
        (
            Startup {
                phase: Phase::Spawning,
                owns_process: false,
                address,
                input: LineBuffer::new(),
            },
            Action::Spawn { program: properties.executable_name, arguments },
        )
    }
}

impl Startup {
    fn abandon(self, cause: Error) -> (r: Progress)
        ensures
            r@ == abandon(self@, cause@),
    {
        let quit = match self.phase {
            Phase::Handshaking => Some("quit\n".to_owned()),
            _ => None,
        };
        let plan = Teardown { quit, terminate: self.owns_process };
        Progress::Continue(
            Startup {
                phase: Phase::Abandoning(cause),
                owns_process: false,
                address: self.address,
                input: self.input,
            },
            Action::Release(plan),
        )
    }

    /// Whether the simulator announces readiness in `line`.
    pub fn announces_readiness(line: &str) -> (r: bool)
        ensures
            r == occurs_in(ready_marker(), line@),
    {
        contains(&characters(line), &characters("JSBSim Execution beginning"))
    }

    /// Takes the next step after `event`.
    pub fn advance(self, event: Event) -> (r: Progress)
        ensures
            r@ == step(self@, event@),
    {
        let mut this = self;
        match this.phase {
            Phase::Spawning => match event {
                Event::Spawned => {
                    this.phase = Phase::Scanning;
                    this.owns_process = true;
                    Progress::Continue(this, Action::ReadOutput)
                },
                _ => this.abandon(Error::Spawn),
            },
            Phase::Scanning => match event {
                Event::Output(line) => {
                    if Self::announces_readiness(line) {
                        this.phase = Phase::Connecting;
                        let address = this.address.clone();
                        Progress::Continue(this, Action::Connect(address))
                    } else {
                        Progress::Continue(this, Action::ReadOutput)
                    }
                },
                Event::OutputEnded => this.abandon(Error::NotReady),
                _ => this.abandon(Error::Io),
            },
            Phase::Connecting => match event {
                Event::Connected => {
                    this.phase = Phase::Handshaking;
                    Progress::Continue(this, Action::Receive)
                },
                _ => this.abandon(Error::Io),
            },
            Phase::Handshaking => match event {
                Event::Received(bytes) => {
                    this.input.extend(bytes);
                    match this.input.recv_line() {
                        Ok(None) => Progress::Continue(this, Action::Receive),
                        Ok(Some(_)) => Progress::Established(
                            JSBSim::established(this.input, this.owns_process),
                        ),
                        Err(cause) => this.abandon(cause),
                    }
                },
                Event::Closed => match this.input.recv_last() {
                    Ok(_) => Progress::Established(
                        JSBSim::established(this.input, this.owns_process),
                    ),
                    Err(cause) => this.abandon(cause),
                },
                _ => this.abandon(Error::Io),
            },
            Phase::Abandoning(cause) => Progress::Failed(cause),
        }
    }
}

} // verus!
