//! The vocabulary shared by every backend: what a backend asks its driver to
//! do (`Action`), what the driver reports back (`Event`), and how far an
//! acquisition has come (`Step`).
//!
//! A backend never talks to the operating system itself. It hands out one
//! action at a time; the driver performs it and reports the outcome.

use crate::{Error, ErrorView};
use vstd::prelude::*;

verus! {

/// A message bus of the desktop.
#[derive(Clone, Copy, Debug, PartialEq, Eq, Structural)]
pub enum Bus {
    /// The bus of the user's desktop session.
    Session,
    /// The bus of the whole machine.
    System,
}

/// What a method call hands back when it succeeds.
#[derive(Clone, Copy, Debug, PartialEq, Eq, Structural)]
pub enum Reply {
    /// Nothing the backend reads.
    Nothing,
    /// A numeric cookie.
    Cookie,
    /// The object path of a pending request.
    ObjectPath,
    /// A file descriptor that inhibits for as long as it is open.
    Descriptor,
}

/// The two request kinds that are set and cleared as a pair.
#[derive(Clone, Copy, Debug, PartialEq, Eq, Structural)]
pub enum PowerRequest {
    DisplayRequired,
    SystemRequired,
}

impl PowerRequest {
    /// The number by which the power API knows the request kind.
    pub open spec fn spec_code(self) -> i32 {
        match self {
            PowerRequest::DisplayRequired => 0,
            PowerRequest::SystemRequired => 1,
        }
    }

    /// The number by which the power API knows the request kind.
    #[verifier::when_used_as_spec(spec_code)]
    pub fn code(self) -> (code: i32)
        ensures
            code == self.spec_code(),
    {
        match self {
            PowerRequest::DisplayRequired => 0,
            PowerRequest::SystemRequired => 1,
        }
    }
}

/// One argument of a method call.
#[derive(Clone, Debug, PartialEq, Eq)]
pub enum Argument {
    /// A string.
    Text(String),
    /// An unsigned 32-bit number.
    Number(u32),
    /// A dictionary from option names to string values.
    Options(Vec<(String, String)>),
}

/// The mathematical value of an `Argument`.
pub enum ArgumentView {
    Text(Seq<char>),
    Number(u32),
    Options(Seq<(Seq<char>, Seq<char>)>),
}

impl View for Argument {
    type V = ArgumentView;

    open spec fn view(&self) -> ArgumentView {
        match self {
            Argument::Text(s) => ArgumentView::Text(s@),
            Argument::Number(n) => ArgumentView::Number(*n),
            Argument::Options(entries) => ArgumentView::Options(entries.deep_view()),
        }
    }
}

/// A method call on a bus: whom it addresses, what it carries and what it
/// hands back.
#[derive(Clone, Debug, PartialEq, Eq)]
pub struct MethodCall {
    pub bus: Bus,
    pub destination: String,
    pub path: String,
    pub interface: String,
    pub method: String,
    pub arguments: Vec<Argument>,
    pub reply: Reply,
}

/// The mathematical value of a `MethodCall`.
pub struct MethodCallView {
    pub bus: Bus,
    pub destination: Seq<char>,
    pub path: Seq<char>,
    pub interface: Seq<char>,
    pub method: Seq<char>,
    pub arguments: Seq<ArgumentView>,
    pub reply: Reply,
}

/// The values of a list of arguments, in order.
pub open spec fn arguments_view(arguments: Seq<Argument>) -> Seq<ArgumentView> {
    Seq::new(arguments.len(), |i: int| arguments[i]@)
}

impl View for MethodCall {
    type V = MethodCallView;

    open spec fn view(&self) -> MethodCallView {
        MethodCallView {
            bus: self.bus,
            destination: self.destination@,
            path: self.path@,
            interface: self.interface@,
            method: self.method@,
            arguments: arguments_view(self.arguments@),
            reply: self.reply,
        }
    }
}

/// What a backend asks its driver to do next.
#[derive(Clone, Debug, PartialEq, Eq)]
pub enum Action {
    /// Open a connection to the bus and keep it.
    Connect(Bus),
    /// Make the call on the open connection to `call.bus`.
    Call(MethodCall),
    /// Close the descriptor that the last descriptor call handed out.
    CloseDescriptor,
    /// Close the connection to the bus.
    Disconnect(Bus),
    /// Create a named power assertion of the given type at the given level.
    CreateAssertion { kind: String, level: u32, name: String },
    /// Release the power assertion with this identifier.
    ReleaseAssertion { id: u32 },
    /// Create a power request whose reason context has this version, these
    /// flags and this NUL-terminated UTF-16 reason. The buffer must stay
    /// alive until the creation call has returned.
    CreateRequest { version: u32, flags: u32, reason: Vec<u16> },
    /// Set one request kind on the power request.
    SetRequest { handle: isize, request: PowerRequest },
    /// Clear one request kind on the power request.
    ClearRequest { handle: isize, request: PowerRequest },
    /// Close the power request.
    CloseHandle { handle: isize },
}

/// The mathematical value of an `Action`.
pub enum ActionView {
    Connect(Bus),
    Call(MethodCallView),
    CloseDescriptor,
    Disconnect(Bus),
    CreateAssertion { kind: Seq<char>, level: u32, name: Seq<char> },
    ReleaseAssertion { id: u32 },
    CreateRequest { version: u32, flags: u32, reason: Seq<u16> },
    SetRequest { handle: isize, request: PowerRequest },
    ClearRequest { handle: isize, request: PowerRequest },
    CloseHandle { handle: isize },
}

impl View for Action {
    type V = ActionView;

    open spec fn view(&self) -> ActionView {
        match self {
            Action::Connect(bus) => ActionView::Connect(*bus),
            Action::Call(call) => ActionView::Call(call@),
            Action::CloseDescriptor => ActionView::CloseDescriptor,
            Action::Disconnect(bus) => ActionView::Disconnect(*bus),
            Action::CreateAssertion { kind, level, name } => ActionView::CreateAssertion {
                kind: kind@,
                level: *level,
                name: name@,
            },
            Action::ReleaseAssertion { id } => ActionView::ReleaseAssertion { id: *id },
            Action::CreateRequest { version, flags, reason } => ActionView::CreateRequest {
                version: *version,
                flags: *flags,
                reason: reason@,
            },
            Action::SetRequest { handle, request } => ActionView::SetRequest {
                handle: *handle,
                request: *request,
            },
            Action::ClearRequest { handle, request } => ActionView::ClearRequest {
                handle: *handle,
                request: *request,
            },
            Action::CloseHandle { handle } => ActionView::CloseHandle { handle: *handle },
        }
    }
}

/// The values of a list of actions, in order.
pub open spec fn actions_view(actions: Seq<Action>) -> Seq<ActionView> {
    Seq::new(actions.len(), |i: int| actions[i]@)
}

/// What the driver reports after it has performed an action.
#[derive(Clone, Debug, PartialEq, Eq)]
pub enum Event {
    /// The action went through and hands nothing back.
    Done,
    /// The connection is open.
    Connected,
    /// The call returned this cookie.
    Cookie(u32),
    /// The call returned this object path.
    ObjectPath(String),
    /// The call returned a descriptor, which the driver now holds open.
    Descriptor,
    /// The assertion call returned this status code and wrote this
    /// identifier.
    Status { code: i32, id: u32 },
    /// The power request was created under this handle.
    Handle(isize),
    /// The action was tried and failed.
    Failed(String),
    /// The call could not be addressed, so nothing was sent.
    Rejected(String),
}

/// The mathematical value of an `Event`.
pub enum EventView {
    Done,
    Connected,
    Cookie(u32),
    ObjectPath(Seq<char>),
    Descriptor,
    Status { code: i32, id: u32 },
    Handle(isize),
    Failed(Seq<char>),
    Rejected(Seq<char>),
}

impl View for Event {
    type V = EventView;

    open spec fn view(&self) -> EventView {
        match self {
            Event::Done => EventView::Done,
            Event::Connected => EventView::Connected,
            Event::Cookie(cookie) => EventView::Cookie(*cookie),
            Event::ObjectPath(path) => EventView::ObjectPath(path@),
            Event::Descriptor => EventView::Descriptor,
            Event::Status { code, id } => EventView::Status { code: *code, id: *id },
            Event::Handle(handle) => EventView::Handle(*handle),
            Event::Failed(message) => EventView::Failed(message@),
            Event::Rejected(message) => EventView::Rejected(message@),
        }
    }
}

impl EventView {
    /// The text that explains why an event is no success: the driver's own
    /// message where it gave one, a fixed text for an event of the wrong
    /// kind.
    pub open spec fn failure_text(self) -> Seq<char> {
        match self {
            EventView::Failed(message) => message,
            EventView::Rejected(message) => message,
            _ => "unexpected reply"@,
        }
    }
}

impl Event {
    /// The text that explains why this event is no success.
    pub fn failure_text(self) -> (text: String)
        ensures
            text@ == self@.failure_text(),
    {
        match self {
            Event::Failed(message) => message,
            Event::Rejected(message) => message,
            _ => String::from_str("unexpected reply"),
        }
    }
}

/// How far an acquisition has come.
#[derive(Clone, Debug, PartialEq, Eq)]
pub enum Step<S, H> {
    /// The driver is to perform the action and report its outcome to the
    /// state.
    Pending(S, Action),
    /// The lock is held.
    Held(H),
    /// The acquisition failed for good.
    Failed(Error),
}

/// The mathematical value of a `Step`.
pub enum StepView<S, H> {
    Pending(S, ActionView),
    Held(H),
    Failed(ErrorView),
}

impl<S: View, H: View> View for Step<S, H> {
    type V = StepView<S::V, H::V>;

    open spec fn view(&self) -> StepView<S::V, H::V> {
        match self {
            Step::Pending(state, action) => StepView::Pending(state@, action@),
            Step::Held(held) => StepView::Held(held@),
            Step::Failed(error) => StepView::Failed(error@),
        }
    }
}

} // verus!
