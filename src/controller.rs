//! The client resource controller: it owns the current state and the last
//! error, and turns the presentation layer's calls and the transport's
//! outcomes into transitions.

use vstd::prelude::*;

use crate::outcome::{classify, classify_spec, ErrorInfo, ErrorView, FetchOutcome};
use crate::payload::PayloadView;
use crate::resource::{command_of, step, transition, Command, Event, EventView, ResourceState, StateView};

verus! {

/// The current resource state, and the error of the last failed cycle, which
/// outlives later successful cycles.
pub struct ResourceController {
    state: ResourceState,
    last_error: Option<ErrorInfo>,
}

/// A `ResourceController` as mathematical values.
pub struct ControllerView {
    pub state: StateView,
    pub last_error: Option<ErrorView>,
}

pub open spec fn opt_error_view(o: Option<ErrorInfo>) -> Option<ErrorView> {
    match o {
        Some(e) => Some(e@),
        None => None,
    }
}

impl View for ResourceController {
    type V = ControllerView;

    closed spec fn view(&self) -> ControllerView {
        ControllerView { state: self.state@, last_error: opt_error_view(self.last_error) }
    }
}

/// The event that a classified outcome amounts to.
pub open spec fn completion_event(c: Result<PayloadView, ErrorView>) -> EventView {
    match c {
        Ok(p) => EventView::ResponseSuccess(p),
        Err(e) => EventView::ResponseFailure(e),
    }
}

/// The controller after an event: the state steps, and a failure is also
/// kept as the last error.
pub open spec fn after_event(c: ControllerView, e: EventView) -> ControllerView {
    ControllerView {
        state: step(c.state, e),
        last_error: match e {
            EventView::ResponseFailure(err) => Some(err),
            _ => c.last_error,
        },
    }
}

/// The controller after a fetch cycle completed with the given outcome.
pub open spec fn after_completion(c: ControllerView, o: FetchOutcome) -> ControllerView {
    after_event(c, completion_event(classify_spec(o)))
}

/// The state that a completed cycle leaves, whatever came before.
pub open spec fn completed_state(o: FetchOutcome) -> StateView {
    match classify_spec(o) {
        Ok(p) => StateView::Success(p),
        Err(e) => StateView::Failed(e),
    }
}

impl ResourceController {
    /// A controller in `Idle` with no error recorded.
    pub fn new() -> (r: ResourceController)
        ensures
            r@.state is Idle,
            r@.last_error is None,
    {
        ResourceController { state: ResourceState::Idle, last_error: None }
    }

    /// The current state, for the presentation layer to read.
    pub fn state(&self) -> (r: &ResourceState)
        ensures
            r@ == self@.state,
    {
        &self.state
    }

    /// The error of the last failed cycle, if any.
    pub fn last_error(&self) -> (r: &Option<ErrorInfo>)
        ensures
            opt_error_view(*r) == self@.last_error,
    {
        &self.last_error
    }

    fn apply(&mut self, event: Event) -> (r: Command)
        ensures
            final(self)@.state == step(old(self)@.state, event@),
            final(self)@.last_error == old(self)@.last_error,
            r == command_of(event@),
    {
        let mut current = ResourceState::Idle;
        std::mem::swap(&mut self.state, &mut current);
        let (next, command) = transition(current, event);
        self.state = next;
        command
    }

    /// Called when the resource is mounted: enters `Loading` and asks for a
    /// fetch, from whatever state it is called in.
    pub fn initialize(&mut self) -> (r: Command)
        ensures
            final(self)@ == after_event(old(self)@, EventView::Initialize),
            final(self)@.state is Loading,
            r == Command::Fetch,
    {
        self.apply(Event::Initialize)
    }

    /// Enters `Loading` and asks for a new fetch, whatever cycles are still
    /// in flight.
    pub fn refresh(&mut self) -> (r: Command)
        ensures
            final(self)@ == after_event(old(self)@, EventView::Refresh),
            final(self)@.state is Loading,
            r == Command::Fetch,
    {
        self.apply(Event::Refresh)
    }

    /// Records the outcome of a completed fetch cycle. The state becomes
    /// `Success` or `Failed` by the classified outcome, whatever it was
    /// before; a failure is also kept as the last error and returned as a
    /// diagnostic to emit.
    pub fn complete(&mut self, outcome: FetchOutcome) -> (r: Option<ErrorInfo>)
        ensures
            final(self)@ == after_completion(old(self)@, outcome),
            final(self)@.state == completed_state(outcome),
            opt_error_view(r) == match classify_spec(outcome) {
                Ok(_) => None,
                Err(e) => Some(e),
            },
    {
        match classify(outcome) {
            Ok(p) => {
                self.apply(Event::ResponseSuccess(p));
                None
            },
            Err(e) => {
                let diagnostic = e.duplicate();
                let kept = e.duplicate();
                self.apply(Event::ResponseFailure(e));
                self.last_error = Some(kept);
                Some(diagnostic)
            },
        }
    }
}

/// Last write wins on completion: after two overlapping refreshes, the state
/// is the result of whichever cycle completed last, here the one issued first,
/// whatever the second one brought.
pub proof fn lemma_last_completion_wins(
    c: ControllerView,
    issued_first: FetchOutcome,
    issued_second: FetchOutcome,
)
    ensures
        after_completion(
            after_completion(
                after_event(after_event(c, EventView::Refresh), EventView::Refresh),
                issued_second,
            ),
            issued_first,
        ).state == completed_state(issued_first),
{
}

/// A completion decides the state alone: any two controllers that see the
/// same outcome end in the same state.
pub proof fn lemma_completion_forgets_state(c1: ControllerView, c2: ControllerView, o: FetchOutcome)
    ensures
        after_completion(c1, o).state == after_completion(c2, o).state,
{
}

/// The last error outlives a later successful cycle.
pub proof fn lemma_error_survives_success(c: ControllerView, failed: FetchOutcome, succeeded: FetchOutcome)
    requires
        classify_spec(failed) is Err,
        classify_spec(succeeded) is Ok,
    ensures
        after_completion(after_completion(c, failed), succeeded).last_error == Some(
            classify_spec(failed)->Err_0,
        ),
        after_completion(after_completion(c, failed), succeeded).state == completed_state(succeeded),
{
}

} // verus!
