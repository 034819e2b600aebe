//! The client's resource state machine: a total transition function from
//! state and event to next state and command.

use vstd::prelude::*;

use crate::outcome::{ErrorInfo, ErrorView};
use crate::payload::{ApiResponse, PayloadView};

verus! {

/// The lifecycle of the fetched resource.
#[derive(Clone, Debug)]
pub enum ResourceState {
    /// No request has been issued yet.
    Idle,
    /// A request is in flight.
    Loading,
    /// The last completed request succeeded with this payload.
    Success(ApiResponse),
    /// The last completed request failed.
    Failed(ErrorInfo),
}

/// A `ResourceState` as mathematical values.
pub enum StateView {
    Idle,
    Loading,
    Success(PayloadView),
    Failed(ErrorView),
}

impl View for ResourceState {
    type V = StateView;

    open spec fn view(&self) -> StateView {
        match self {
            ResourceState::Idle => StateView::Idle,
            ResourceState::Loading => StateView::Loading,
            ResourceState::Success(p) => StateView::Success(p@),
            ResourceState::Failed(e) => StateView::Failed(e@),
        }
    }
}

impl PartialEq for ResourceState {
    fn eq(&self, other: &ResourceState) -> (r: bool) {
        match (self, other) {
            (ResourceState::Idle, ResourceState::Idle) => true,
            (ResourceState::Loading, ResourceState::Loading) => true,
            (ResourceState::Success(a), ResourceState::Success(b)) => a.eq(b),
            (ResourceState::Failed(a), ResourceState::Failed(b)) => a.eq(b),
            _ => false,
        }
    }
}

impl vstd::std_specs::cmp::PartialEqSpecImpl for ResourceState {
    open spec fn obeys_eq_spec() -> bool {
        true
    }

    open spec fn eq_spec(&self, other: &ResourceState) -> bool {
        self@ == other@
    }
}

/// What drives the state machine.
#[derive(Clone, Debug)]
pub enum Event {
    /// The presentation layer mounted the resource.
    Initialize,
    /// The presentation layer asked for a new fetch.
    Refresh,
    /// A fetch cycle completed with this payload.
    ResponseSuccess(ApiResponse),
    /// A fetch cycle completed with this error.
    ResponseFailure(ErrorInfo),
}

/// An `Event` as mathematical values.
pub enum EventView {
    Initialize,
    Refresh,
    ResponseSuccess(PayloadView),
    ResponseFailure(ErrorView),
}

impl View for Event {
    type V = EventView;

    open spec fn view(&self) -> EventView {
        match self {
            Event::Initialize => EventView::Initialize,
            Event::Refresh => EventView::Refresh,
            Event::ResponseSuccess(p) => EventView::ResponseSuccess(p@),
            Event::ResponseFailure(e) => EventView::ResponseFailure(e@),
        }
    }
}

/// What the caller of the state machine is to do next.
#[derive(Clone, Copy, Debug, PartialEq, Eq, Structural)]
pub enum Command {
    /// Issue `GET` on the data path and report the outcome.
    Fetch,
    /// Nothing.
    Wait,
}

/// The path, relative to the client's own origin, that every fetch requests.
pub const DATA_PATH: &'static str = "/api/data";

/// The next state. `Initialize` and `Refresh` each begin a fetch cycle, which
/// enters `Loading`, from any state; a completion
/// sets the state to its result from any state, so that the cycle that
/// completes last decides.
pub open spec fn step(s: StateView, e: EventView) -> StateView {
    match e {
        EventView::Initialize => StateView::Loading,
        EventView::Refresh => StateView::Loading,
        EventView::ResponseSuccess(p) => StateView::Success(p),
        EventView::ResponseFailure(err) => StateView::Failed(err),
    }
}

/// Whether the event begins a fetch cycle.
pub open spec fn starts_fetch(e: EventView) -> bool {
    match e {
        EventView::Initialize => true,
        EventView::Refresh => true,
        _ => false,
    }
}

/// The command that goes with a transition.
pub open spec fn command_of(e: EventView) -> Command {
    if starts_fetch(e) {
        Command::Fetch
    } else {
        Command::Wait
    }
}

/// The transition function: defined on every pair of state and event.
pub fn transition(state: ResourceState, event: Event) -> (r: (ResourceState, Command))
    ensures
        r.0@ == step(state@, event@),
        r.1 == command_of(event@),
{
    match event {
        Event::Initialize => (ResourceState::Loading, Command::Fetch),
        Event::Refresh => (ResourceState::Loading, Command::Fetch),
        Event::ResponseSuccess(p) => (ResourceState::Success(p), Command::Wait),
        Event::ResponseFailure(e) => (ResourceState::Failed(e), Command::Wait),
    }
}

} // verus!
