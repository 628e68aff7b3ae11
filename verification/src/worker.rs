//! The life of a worker: the stages in which it starts, the loop in which it
//! serves, and what ends it. The engine, the channel and the thread are the
//! caller's; this module says what is done next.

use vstd::prelude::*;
use vstd::string::*;
use crate::error::Error;
use crate::text::{chars_of, has_suffix};
use crate::transpiler::{outcome, plan_for, transpile, transpiled, MediaKind, ParseMode};

verus! {

/// The stages of a worker's start, in the order in which they run.
#[derive(Clone, Copy, Debug, PartialEq, Eq, Structural)]
pub enum Stage {
    /// The engine is built, the module loader and the resolver are set, and
    /// the global `ctx` is bound.
    Context,
    /// The configured functions are transpiled where needed and compiled.
    Functions,
    /// The page bundle is built and an invoker is compiled for each page.
    Pages,
}

/// Where a worker stands.
#[derive(Clone, Copy, Debug, PartialEq, Eq, Structural)]
pub enum Phase {
    /// It is starting; the stage is the one that runs next.
    Starting(Stage),
    /// It waits for a request.
    Ready,
    /// It has taken a request and owes the reply.
    Busy,
    /// It has ended.
    Stopped,
}

/// What happened to a worker.
#[derive(Clone, Copy, Debug, PartialEq, Eq, Structural)]
pub enum Event {
    /// The stage that was running went through.
    StageDone,
    /// The stage that was running failed.
    StageFailed,
    /// A request came in.
    Request,
    /// The reply to the request at hand was handed to the reply channel.
    Replied,
    /// The request channel is closed.
    Closed,
}

/// What a worker does next.
#[derive(Clone, Copy, Debug, PartialEq, Eq, Structural)]
pub enum Action {
    /// Run a stage of the start.
    Run(Stage),
    /// Wait for the next request.
    Receive,
    /// Prepare the request at hand, evaluate it and send its reply.
    Serve,
    /// End the worker.
    Exit,
}

/// Whether `event` can happen to a worker in `phase`.
pub open spec fn accepts(phase: Phase, event: Event) -> bool {
    match phase {
        Phase::Starting(_) => event == Event::StageDone || event == Event::StageFailed,
        Phase::Ready => event == Event::Request || event == Event::Closed,
        Phase::Busy => event == Event::Replied,
        Phase::Stopped => false,
    }
}

/// The phase that follows `phase` on `event`.
///
/// The stages run in order, and the worker is ready when the last one is
/// over. A failure of the first two stages ends the worker; a failure of the
/// page stage does not: the worker serves without the pages. A request makes
/// the worker busy until it has replied. A closed channel ends it. An event
/// that cannot happen in `phase` changes nothing.
pub open spec fn next_phase(phase: Phase, event: Event) -> Phase {
    match (phase, event) {
        (Phase::Starting(Stage::Context), Event::StageDone) => Phase::Starting(Stage::Functions),
        (Phase::Starting(Stage::Functions), Event::StageDone) => Phase::Starting(Stage::Pages),
        (Phase::Starting(Stage::Pages), Event::StageDone) => Phase::Ready,
        (Phase::Starting(Stage::Context), Event::StageFailed) => Phase::Stopped,
        (Phase::Starting(Stage::Functions), Event::StageFailed) => Phase::Stopped,
        (Phase::Starting(Stage::Pages), Event::StageFailed) => Phase::Ready,
        (Phase::Ready, Event::Request) => Phase::Busy,
        (Phase::Ready, Event::Closed) => Phase::Stopped,
        (Phase::Busy, Event::Replied) => Phase::Ready,
        _ => phase,
    }
}

/// What a worker in `phase` does next.
pub open spec fn action_of(phase: Phase) -> Action {
    match phase {
        Phase::Starting(stage) => Action::Run(stage),
        Phase::Ready => Action::Receive,
        Phase::Busy => Action::Serve,
        Phase::Stopped => Action::Exit,
    }
}

/// The phase in which every worker begins.
pub open spec fn first_phase() -> Phase {
    Phase::Starting(Stage::Context)
}

/// The phase of a worker to which `events` have happened, one after the
/// other, since it began.
pub open spec fn phase_after(events: Seq<Event>) -> Phase
    decreases events.len(),
{
    if events.len() == 0 {
        first_phase()
    } else {
        next_phase(phase_after(events.drop_last()), events.last())
    }
}

/// Whether `events` can happen to a worker, one after the other, since it
/// began.
pub open spec fn possible(events: Seq<Event>) -> bool
    decreases events.len(),
{
    events.len() == 0 || (possible(events.drop_last()) && accepts(
        phase_after(events.drop_last()),
        events.last(),
    ))
}

/// How often `event` stands in `events`.
pub open spec fn count(events: Seq<Event>, event: Event) -> nat
    decreases events.len(),
{
    if events.len() == 0 {
        0
    } else {
        count(events.drop_last(), event) + if events.last() == event {
            1nat
        } else {
            0nat
        }
    }
}

/// A worker as it begins: the phase, and what it does first.
pub fn start() -> (r: (Phase, Action))
    ensures
        r.0 == first_phase(),
        r.1 == action_of(r.0),
{
    (Phase::Starting(Stage::Context), Action::Run(Stage::Context))
}

/// Takes `event` for a worker in `phase`: the phase that follows, and what
/// the worker does next.
pub fn step(phase: Phase, event: Event) -> (r: (Phase, Action))
    ensures
        r.0 == next_phase(phase, event),
        r.1 == action_of(r.0),
{
    let next = match phase {
        Phase::Starting(stage) => match event {
            Event::StageDone => match stage {
                Stage::Context => Phase::Starting(Stage::Functions),
                Stage::Functions => Phase::Starting(Stage::Pages),
                Stage::Pages => Phase::Ready,
            },
            Event::StageFailed => match stage {
                Stage::Context => Phase::Stopped,
                Stage::Functions => Phase::Stopped,
                Stage::Pages => Phase::Ready,
            },
            _ => phase,
        },
        Phase::Ready => match event {
            Event::Request => Phase::Busy,
            Event::Closed => Phase::Stopped,
            _ => phase,
        },
        Phase::Busy => match event {
            Event::Replied => Phase::Ready,
            _ => phase,
        },
        Phase::Stopped => phase,
    };
    let action = match next {
        Phase::Starting(stage) => Action::Run(stage),
        Phase::Ready => Action::Receive,
        Phase::Busy => Action::Serve,
        Phase::Stopped => Action::Exit,
    };
    (next, action)
}

/// Every request gets one reply, and no reply goes out without a request:
/// whatever has happened to a worker, it has replied as often as it was
/// asked, but for the one request that it is busy with.
pub proof fn lemma_one_reply_for_each_request(events: Seq<Event>)
    requires
        possible(events),
    ensures
        count(events, Event::Request) == count(events, Event::Replied) + if phase_after(events)
            == Phase::Busy {
            1nat
        } else {
            0nat
        },
    decreases events.len(),
{
    if events.len() > 0 {
        lemma_one_reply_for_each_request(events.drop_last());
    }
}

/// A worker never ends with a reply owed: it ends from a failed start or
/// from waiting on a closed channel, so at its end it has replied to every
/// request that it took.
pub proof fn lemma_stopped_owes_nothing(events: Seq<Event>)
    requires
        possible(events),
        phase_after(events) == Phase::Stopped,
    ensures
        count(events, Event::Request) == count(events, Event::Replied),
{
    lemma_one_reply_for_each_request(events);
}

/// A worker takes no request before its start is over: both the context and
/// the function stage went through, and the page stage has run.
pub proof fn lemma_serves_after_start(events: Seq<Event>)
    requires
        possible(events),
        count(events, Event::Request) > 0,
    ensures
        count(events, Event::StageDone) >= 2,
        count(events, Event::StageDone) + count(events, Event::StageFailed) == 3,
{
    lemma_stages(events);
}

/// How far the start has come, told from the stages that went through and
/// those that failed.
proof fn lemma_stages(events: Seq<Event>)
    requires
        possible(events),
    ensures
        match phase_after(events) {
            Phase::Starting(Stage::Context) => count(events, Event::StageDone) == 0 && count(
                events,
                Event::StageFailed,
            ) == 0 && count(events, Event::Request) == 0,
            Phase::Starting(Stage::Functions) => count(events, Event::StageDone) == 1 && count(
                events,
                Event::StageFailed,
            ) == 0 && count(events, Event::Request) == 0,
            Phase::Starting(Stage::Pages) => count(events, Event::StageDone) == 2 && count(
                events,
                Event::StageFailed,
            ) == 0 && count(events, Event::Request) == 0,
            Phase::Ready => count(events, Event::StageDone) >= 2 && count(
                events,
                Event::StageDone,
            ) + count(events, Event::StageFailed) == 3,
            Phase::Busy => count(events, Event::StageDone) >= 2 && count(events, Event::StageDone)
                + count(events, Event::StageFailed) == 3,
            Phase::Stopped => count(events, Event::Request) == 0 || (count(
                events,
                Event::StageDone,
            ) >= 2 && count(events, Event::StageDone) + count(events, Event::StageFailed) == 3),
        },
    decreases events.len(),
{
    if events.len() > 0 {
        lemma_stages(events.drop_last());
    }
}

/// The kind of source that a configured function holds by the ending of its
/// name, where it is one that must be transpiled: `.ts` and `.tsx`.
pub open spec fn function_media(name: Seq<char>) -> Option<MediaKind> {
    if ".tsx"@.is_suffix_of(name) {
        Some(MediaKind::Tsx)
    } else if ".ts"@.is_suffix_of(name) {
        Some(MediaKind::TypeScript)
    } else {
        None
    }
}

/// The text that is compiled for the configured function `name` with the
/// source `code`: the source as it is, or transpiled first where the name
/// ends in `.ts` or `.tsx`.
pub fn function_source(name: &str, code: String) -> (r: Result<String, Error>)
    ensures
        match function_media(name@) {
            None => r == Ok::<String, Error>(code),
            Some(media) => outcome(r) == Some(
                transpiled(code@, plan_for(media, ParseMode::Program)),
            ),
        },
{
    let chars = chars_of(name);
    if has_suffix(&chars, &chars_of(".tsx")) {
        transpile(code.as_str(), Some(MediaKind::Tsx))
    } else if has_suffix(&chars, &chars_of(".ts")) {
        transpile(code.as_str(), Some(MediaKind::TypeScript))
    } else {
        Ok(code)
    }
}

} // verus!
