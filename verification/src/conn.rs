//! The connection handler as a state machine: one step per completed
//! outside operation. The caller performs the requested action (read a
//! line, wait, load a resource, write), reports what happened as an
//! event, and the machine decides the next action. Within a connection
//! the steps occur strictly in the order read, decide, delay, load,
//! compose, write.

use vstd::prelude::*;
use crate::route::Route;
use crate::route::SLOW_DELAY_MS;
use crate::route::delay_ms;
use crate::route::file_name;
use crate::route::hello_file;
use crate::route::ok_status;
use crate::route::route_of;
use crate::route::spec_delay_ms;
use crate::route::spec_file_name;
use crate::route::spec_route;
use crate::route::spec_status_line;
use crate::route::spec_trim;
use crate::route::status_line;
use crate::route::trim_line;
use crate::response::compose_response;
use crate::response::spec_response;

verus! {

/// Where a connection's handler stands in its fixed linear sequence.
#[derive(Clone, Copy, Debug, PartialEq, Eq, Structural)]
pub enum Phase {
    /// Waiting for the request line.
    Reading,
    /// Waiting for the slow route's artificial delay to elapse.
    Delaying { route: Route },
    /// Waiting for the contents of the decided resource.
    Loading { route: Route },
    /// Waiting for the response to be written out in full.
    Writing,
    /// The connection is released; nothing more happens on it.
    Done,
}

/// What the handler's environment reports back to it.
pub enum Event {
    /// A full request line arrived, line terminator included.
    LineRead(Vec<u8>),
    /// The artificial delay elapsed.
    DelayElapsed,
    /// The contents of the requested resource were loaded.
    FileLoaded(Vec<u8>),
    /// The whole response was written and flushed.
    WriteCompleted,
    /// Reading, loading or writing failed: terminal for this connection.
    IoFailed,
}

/// What the handler asks its environment to do next.
pub enum Action {
    /// Suspend this connection for the given number of milliseconds.
    Delay(u64),
    /// Load the contents of the named resource.
    LoadFile(Vec<u8>),
    /// Write the whole buffer to the connection and flush it.
    WriteResponse(Vec<u8>),
    /// Release the connection without writing anything more.
    Close,
}

/// The phase in which every connection's handler starts: about to read
/// the one request line.
pub fn initial_phase() -> (p: Phase)
    ensures
        p == Phase::Reading,
{
    Phase::Reading
}

/// How one step of the handler relates its phase and the event it
/// received to its next phase and the action it requests. A failure
/// closes the connection in every phase; an event that its phase does
/// not expect closes it too, so a handler never acts on stale input.
pub open spec fn step_post(phase: Phase, ev: Event, next: Phase, act: Action) -> bool {
    match ev {
        Event::LineRead(line) => match phase {
            Phase::Reading => {
                let r = spec_route(spec_trim(line@));
                if r is Slow {
                    &&& next == (Phase::Delaying { route: r })
                    &&& act matches Action::Delay(ms) && ms == spec_delay_ms(r)
                } else {
                    &&& next == (Phase::Loading { route: r })
                    &&& act matches Action::LoadFile(f) && f@ == spec_file_name(r)
                }
            },
            _ => next == Phase::Done && act is Close,
        },
        Event::DelayElapsed => match phase {
            Phase::Delaying { route } => {
                &&& next == (Phase::Loading { route })
                &&& act matches Action::LoadFile(f) && f@ == spec_file_name(route)
            },
            _ => next == Phase::Done && act is Close,
        },
        Event::FileLoaded(body) => match phase {
            Phase::Loading { route } => {
                &&& next == Phase::Writing
                &&& act matches Action::WriteResponse(r) && r@ == spec_response(
                    spec_status_line(route),
                    body@,
                )
            },
            _ => next == Phase::Done && act is Close,
        },
        Event::WriteCompleted => next == Phase::Done && act is Close,
        Event::IoFailed => next == Phase::Done && act is Close,
    }
}

/// One step of the handler: from the phase it was in and the event that
/// arrived, the phase it moves to and the action it requests next.
pub fn step(phase: Phase, ev: Event) -> (r: (Phase, Action))
    ensures
        step_post(phase, ev, r.0, r.1),
{
    match ev {
        Event::LineRead(line) => match phase {
            Phase::Reading => {
                let trimmed = trim_line(&line);
                let route = route_of(&trimmed);
                if let Route::Slow = route {
                    (Phase::Delaying { route }, Action::Delay(delay_ms(route)))
                } else {
                    (Phase::Loading { route }, Action::LoadFile(file_name(route)))
                }
            },
            _ => (Phase::Done, Action::Close),
        },
        Event::DelayElapsed => match phase {
            Phase::Delaying { route } => (
                Phase::Loading { route },
                Action::LoadFile(file_name(route)),
            ),
            _ => (Phase::Done, Action::Close),
        },
        Event::FileLoaded(body) => match phase {
            Phase::Loading { route } => {
                let status = status_line(route);
                let resp = compose_response(&status, &body);
                (Phase::Writing, Action::WriteResponse(resp))
            },
            _ => (Phase::Done, Action::Close),
        },
        Event::WriteCompleted => (Phase::Done, Action::Close),
        Event::IoFailed => (Phase::Done, Action::Close),
    }
}

/// A connection whose I/O fails, in whatever phase, is closed without
/// any response being written: the step requests Close and nothing else.
pub proof fn lemma_failure_closes(phase: Phase, next: Phase, act: Action)
    requires
        step_post(phase, Event::IoFailed, next, act),
    ensures
        next == Phase::Done,
        act is Close,
{
}

/// A write is requested only from the loading phase, on the loaded
/// contents: never before the request line was read, decided, and its
/// resource loaded. Within a connection the steps keep their order.
pub proof fn lemma_write_only_after_load(phase: Phase, ev: Event, next: Phase, act: Action)
    requires
        step_post(phase, ev, next, act),
        act is WriteResponse,
    ensures
        phase is Loading,
        ev is FileLoaded,
        next == Phase::Writing,
{
}

/// A plain exchange: a request line that does not name the slow route,
/// answered with the loaded resource contents, makes the handler write
/// exactly the response composed from its own decision on that line.
pub proof fn lemma_plain_exchange(
    line: Vec<u8>,
    body: Vec<u8>,
    p1: Phase,
    a1: Action,
    p2: Phase,
    a2: Action,
)
    requires
        spec_route(spec_trim(line@)) != Route::Slow,
        step_post(Phase::Reading, Event::LineRead(line), p1, a1),
        step_post(p1, Event::FileLoaded(body), p2, a2),
    ensures
        a1 matches Action::LoadFile(f) && f@ == spec_file_name(spec_route(spec_trim(line@))),
        p2 == Phase::Writing,
        a2 matches Action::WriteResponse(r) && r@ == spec_response(
            spec_status_line(spec_route(spec_trim(line@))),
            body@,
        ),
{
}

/// The slow exchange: the slow request line first obtains the fixed
/// delay, and only after the delay has elapsed is the resource loaded
/// and the success response written. No write is requested before the
/// delay step.
pub proof fn lemma_slow_exchange(
    line: Vec<u8>,
    body: Vec<u8>,
    p1: Phase,
    a1: Action,
    p2: Phase,
    a2: Action,
    p3: Phase,
    a3: Action,
)
    requires
        spec_route(spec_trim(line@)) == Route::Slow,
        step_post(Phase::Reading, Event::LineRead(line), p1, a1),
        step_post(p1, Event::DelayElapsed, p2, a2),
        step_post(p2, Event::FileLoaded(body), p3, a3),
    ensures
        a1 matches Action::Delay(ms) && ms == SLOW_DELAY_MS,
        a2 matches Action::LoadFile(f) && f@ == hello_file(),
        p3 == Phase::Writing,
        a3 matches Action::WriteResponse(r) && r@ == spec_response(ok_status(), body@),
{
}

} // verus!
