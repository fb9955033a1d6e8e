//! The cycle driver as a state machine: one full poll, match, render,
//! publish pass. Each step takes the current state and an event (the result
//! of the outside work the previous action asked for) and returns the next
//! state and the next action. The loop around it performs the actions —
//! the poll, the image pipeline, the publisher calls, the liveness update
//! and the fixed sleep on a finished cycle — and hands the results back.
//!
//! Any failure in polling or rendering publishes the fixed fallback status
//! text exactly once and then finishes the cycle; a list in which nothing
//! matches finishes the cycle without publishing. The liveness tracker is
//! to be updated on every finished cycle, whatever the path taken.

use crate::matcher::render_inputs;
use crate::matcher::select;
use crate::matcher::selection_post;
use crate::matcher::spec_status_text;
use crate::matcher::status_text;
use crate::model::MarneServerInfo;
use crate::model::MarneServerList;
use crate::model::MonitorTarget;
use crate::poll::PollOutcome;
use crate::strutil::last_segment;
use crate::tables::spec_abbr_or_empty;
use crate::tables::spec_image_or_raw;
use vstd::prelude::*;
use vstd::string::*;

verus! {

/// Where one cycle stands.
pub enum CycleState {
    /// Between cycles.
    Idle,
    /// A poll was requested and its outcome is awaited.
    Polling,
    /// The matched server's status text is held while the image is rendered.
    Rendering { status_text: String },
    /// The publisher was invoked and its completion is awaited.
    Publishing,
}

/// What the outside work reported back.
pub enum CycleEvent {
    /// The fixed interval elapsed and a new cycle begins.
    Start,
    /// The poll finished with the given tagged outcome.
    PollCompleted(PollOutcome),
    /// The image pipeline failed to download, decode, or encode.
    RenderFailed,
    /// The image pipeline wrote the composited image to the given path.
    RenderSucceeded(String),
    /// The publisher calls were made.
    Published,
}

/// What the loop is asked to do next.
pub enum CycleAction {
    /// Fetch the remote server list.
    StartPoll,
    /// Run the image pipeline on the given map art with the given overlay.
    StartRender { abbreviation: String, image_url: String },
    /// Invoke the publisher: set the status text, and the avatar when a
    /// composited image path is given.
    Publish { status_text: String, avatar_path: Option<String> },
    /// Update the liveness tracker, sleep the fixed interval, then start
    /// the next cycle.
    FinishCycle,
}

/// The status text published when a cycle fails before anything better is
/// known.
pub open spec fn spec_fallback_text() -> Seq<char> {
    "\u{af}\\_(\u{30c4})_/\u{af} server not found"@
}

/// The fixed fallback status text.
pub fn fallback_status_text() -> (r: &'static str)
    ensures
        r@ == spec_fallback_text(),
{
    "\u{af}\\_(\u{30c4})_/\u{af} server not found"
}

/// The step publishes the fallback text, with no avatar change, exactly
/// once, and awaits the publisher.
pub open spec fn spec_fallback_publish(s2: CycleState, a: CycleAction) -> bool {
    &&& s2 is Publishing
    &&& a matches CycleAction::Publish { status_text, avatar_path } && status_text@
        == spec_fallback_text() && avatar_path is None
}

/// What a completed parse leads to: with no target configured or no entry
/// matching, the cycle finishes with no publish; with a match, the first
/// matching entry in list order is rendered, under its status text, mode
/// abbreviation, and map image URL.
pub open spec fn spec_poll_parsed_post(
    list: MarneServerList,
    target: Option<MonitorTarget>,
    s2: CycleState,
    a: CycleAction,
) -> bool {
    match target {
        None => s2 is Idle && a is FinishCycle,
        Some(t) => {
            if exists|i: int| selection_post(list.servers@, t, Some(i)) {
                exists|i: int|
                    {
                        &&& #[trigger] selection_post(list.servers@, t, Some(i))
                        &&& s2 matches CycleState::Rendering { status_text } && status_text@
                            == spec_status_text(list.servers@[i])
                        &&& a matches CycleAction::StartRender { abbreviation, image_url }
                            && abbreviation@ == spec_abbr_or_empty(list.servers@[i].game_mode@)
                            && image_url@ == spec_image_or_raw(
                            last_segment(list.servers@[i].map_name@),
                        )
                    }
            } else {
                s2 is Idle && a is FinishCycle
            }
        },
    }
}

/// The transition relation of the driver: what the next state and action
/// are for every state and event. An event that does not belong to the
/// state recovers to an idle, finished cycle.
pub open spec fn spec_step_post(
    state: CycleState,
    target: Option<MonitorTarget>,
    event: CycleEvent,
    s2: CycleState,
    a: CycleAction,
) -> bool {
    match (state, event) {
        (CycleState::Idle, CycleEvent::Start) => s2 is Polling && a is StartPoll,
        (CycleState::Polling, CycleEvent::PollCompleted(outcome)) => match outcome {
            PollOutcome::Parsed(list) => spec_poll_parsed_post(list, target, s2, a),
            PollOutcome::Malformed(_) => spec_fallback_publish(s2, a),
            PollOutcome::TransportFailed => spec_fallback_publish(s2, a),
        },
        (CycleState::Rendering { status_text }, CycleEvent::RenderSucceeded(path)) => {
            &&& s2 is Publishing
            &&& a matches CycleAction::Publish { status_text: t, avatar_path } && t == status_text
                && avatar_path == Some(path)
        },
        (CycleState::Rendering { .. }, CycleEvent::RenderFailed) => spec_fallback_publish(s2, a),
        (CycleState::Publishing, CycleEvent::Published) => s2 is Idle && a is FinishCycle,
        _ => s2 is Idle && a is FinishCycle,
    }
}

/// Publishes the fallback text once and moves on to await the publisher.
fn fallback_publish_step() -> (r: (CycleState, CycleAction))
    ensures
        spec_fallback_publish(r.0, r.1),
{
    (
        CycleState::Publishing,
        CycleAction::Publish { status_text: fallback_status_text().to_owned(), avatar_path: None },
    )
}

/// Matches the parsed list against the target and plans the render.
fn step_poll_parsed(list: MarneServerList, target: &Option<MonitorTarget>) -> (r: (
    CycleState,
    CycleAction,
))
    ensures
        spec_poll_parsed_post(list, *target, r.0, r.1),
{
    match target {
        None => (CycleState::Idle, CycleAction::FinishCycle),
        Some(t) => match select(&list.servers, t) {
            Ok(i) => {
                let server: &MarneServerInfo = &list.servers[i];
                let text: String = status_text(server);
                let inputs: (String, String) = render_inputs(server);
                proof {
                    assert(selection_post(list.servers@, *t, Some(i as int)));
                }
                (
                    CycleState::Rendering { status_text: text },
                    CycleAction::StartRender { abbreviation: inputs.0, image_url: inputs.1 },
                )
            },
            Err(_) => (CycleState::Idle, CycleAction::FinishCycle),
        },
    }
}

/// One transition of the driver: from the current state and the event the
/// loop reports, to the next state and the next action.
pub fn step(state: CycleState, target: &Option<MonitorTarget>, event: CycleEvent) -> (r: (
    CycleState,
    CycleAction,
))
    ensures
        spec_step_post(state, *target, event, r.0, r.1),
{
    match (state, event) {
        (CycleState::Idle, CycleEvent::Start) => (CycleState::Polling, CycleAction::StartPoll),
        (CycleState::Polling, CycleEvent::PollCompleted(outcome)) => match outcome {
            PollOutcome::Parsed(list) => step_poll_parsed(list, target),
            PollOutcome::Malformed(_) => fallback_publish_step(),
            PollOutcome::TransportFailed => fallback_publish_step(),
        },
        (CycleState::Rendering { status_text }, CycleEvent::RenderSucceeded(path)) => (
            CycleState::Publishing,
            CycleAction::Publish { status_text, avatar_path: Some(path) },
        ),
        (CycleState::Rendering { status_text: _ }, CycleEvent::RenderFailed) => fallback_publish_step(),
        (CycleState::Publishing, CycleEvent::Published) => (
            CycleState::Idle,
            CycleAction::FinishCycle,
        ),
        _ => (CycleState::Idle, CycleAction::FinishCycle),
    }
}

} // verus!
