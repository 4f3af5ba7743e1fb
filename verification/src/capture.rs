//! Reading the selection through the clipboard: clear it, simulate a copy,
//! poll for the copied text, and put back what the clipboard held before.
//! The application performs each action and reports what happened.

use vstd::prelude::*;

verus! {

/// How many times the clipboard is read at most after the copy.
pub open spec fn poll_limit() -> nat {
    50
}

/// How long to wait before each read of the clipboard, in milliseconds.
pub open spec fn poll_interval_millis() -> u64 {
    12
}

/// Where a capture stands.
pub enum CapturePhase {
    /// Not started.
    Idle,
    /// Waiting for the clipboard to be cleared.
    Clearing,
    /// Waiting for the copy keystroke to be sent.
    Copying,
    /// `polls` reads have found nothing; one more is under way.
    Polling { polls: u32 },
    /// The selection is `selected`; waiting for the old text to be put back.
    Restoring { selected: String },
    /// Done.
    Finished,
}

/// A capture in progress.
pub struct CaptureState {
    /// What the clipboard held as text before the capture, if anything.
    pub previous: Option<String>,
    pub phase: CapturePhase,
}

/// What the application reports back to a capture.
pub enum CaptureEvent {
    /// The capture begins; the clipboard held this text (if any).
    Started { previous: Option<String> },
    /// The clipboard was cleared (or clearing failed; the capture goes on).
    Cleared,
    /// The copy keystroke was sent.
    CopySent,
    /// The copy keystroke could not be sent.
    CopyFailed,
    /// The clipboard was read after the wait: its text, if any could be read.
    Polled(Option<String>),
    /// The old text was put back (or putting it back failed).
    Restored,
}

/// What the application is to do next for a capture.
pub enum CaptureAction {
    /// Empty the clipboard, so that text that was there is not taken for
    /// the selection; then report `Cleared`.
    ClearClipboard,
    /// Send the copy keystroke; then report `CopySent` or `CopyFailed`.
    SendCopy,
    /// Wait this long, read the clipboard, and report `Polled`.
    Wait { millis: u64 },
    /// Put this text back on the clipboard; then report `Restored`.
    Restore(String),
    /// The capture is over: this is the selected text (empty where none
    /// was found).
    Done(String),
    /// The capture is over without a result: the copy could not be sent.
    Abandon,
}

pub enum CapturePhaseView {
    Idle,
    Clearing,
    Copying,
    Polling(nat),
    Restoring(Seq<char>),
    Finished,
}

pub struct CaptureStateView {
    pub previous: Option<Seq<char>>,
    pub phase: CapturePhaseView,
}

pub enum CaptureEventView {
    Started(Option<Seq<char>>),
    Cleared,
    CopySent,
    CopyFailed,
    Polled(Option<Seq<char>>),
    Restored,
}

pub enum CaptureActionView {
    ClearClipboard,
    SendCopy,
    Wait(u64),
    Restore(Seq<char>),
    Done(Seq<char>),
    Abandon,
}

impl View for CapturePhase {
    type V = CapturePhaseView;

    open spec fn view(&self) -> CapturePhaseView {
        match self {
            CapturePhase::Idle => CapturePhaseView::Idle,
            CapturePhase::Clearing => CapturePhaseView::Clearing,
            CapturePhase::Copying => CapturePhaseView::Copying,
            CapturePhase::Polling { polls } => CapturePhaseView::Polling(*polls as nat),
            CapturePhase::Restoring { selected } => CapturePhaseView::Restoring(selected@),
            CapturePhase::Finished => CapturePhaseView::Finished,
        }
    }
}

impl View for CaptureState {
    type V = CaptureStateView;

    open spec fn view(&self) -> CaptureStateView {
        CaptureStateView { previous: self.previous.deep_view(), phase: self.phase@ }
    }
}

impl View for CaptureEvent {
    type V = CaptureEventView;

    open spec fn view(&self) -> CaptureEventView {
        match self {
            CaptureEvent::Started { previous } => CaptureEventView::Started(previous.deep_view()),
            CaptureEvent::Cleared => CaptureEventView::Cleared,
            CaptureEvent::CopySent => CaptureEventView::CopySent,
            CaptureEvent::CopyFailed => CaptureEventView::CopyFailed,
            CaptureEvent::Polled(text) => CaptureEventView::Polled(text.deep_view()),
            CaptureEvent::Restored => CaptureEventView::Restored,
        }
    }
}

impl View for CaptureAction {
    type V = CaptureActionView;

    open spec fn view(&self) -> CaptureActionView {
        match self {
            CaptureAction::ClearClipboard => CaptureActionView::ClearClipboard,
            CaptureAction::SendCopy => CaptureActionView::SendCopy,
            CaptureAction::Wait { millis } => CaptureActionView::Wait(*millis),
            CaptureAction::Restore(t) => CaptureActionView::Restore(t@),
            CaptureAction::Done(t) => CaptureActionView::Done(t@),
            CaptureAction::Abandon => CaptureActionView::Abandon,
        }
    }
}

/// Whether a capture state can occur: a poll under way is one of the first
/// fifty.
pub open spec fn capture_state_wf(state: CaptureStateView) -> bool {
    state.phase matches CapturePhaseView::Polling(n) ==> n < poll_limit()
}

/// Whether `event` is the report that a capture in `phase` waits for.
pub open spec fn capture_event_fits(phase: CapturePhaseView, event: CaptureEventView) -> bool {
    match (phase, event) {
        (CapturePhaseView::Idle, CaptureEventView::Started(_)) => true,
        (CapturePhaseView::Clearing, CaptureEventView::Cleared) => true,
        (CapturePhaseView::Copying, CaptureEventView::CopySent) => true,
        (CapturePhaseView::Copying, CaptureEventView::CopyFailed) => true,
        (CapturePhaseView::Polling(_), CaptureEventView::Polled(_)) => true,
        (CapturePhaseView::Restoring(_), CaptureEventView::Restored) => true,
        _ => false,
    }
}

/// The end of the polling with `selected` as the result: put the old text
/// back first where there was one.
pub open spec fn capture_result(previous: Option<Seq<char>>, selected: Seq<char>) -> (
    CaptureStateView,
    CaptureActionView,
) {
    match previous {
        Some(p) => (
            CaptureStateView { previous, phase: CapturePhaseView::Restoring(selected) },
            CaptureActionView::Restore(p),
        ),
        None => (
            CaptureStateView { previous, phase: CapturePhaseView::Finished },
            CaptureActionView::Done(selected),
        ),
    }
}

/// One step of a capture: the state after `event`, and what to do next.
pub open spec fn capture_transition(state: CaptureStateView, event: CaptureEventView) -> (
    CaptureStateView,
    CaptureActionView,
) {
    match event {
        CaptureEventView::Started(previous) => (
            CaptureStateView { previous, phase: CapturePhaseView::Clearing },
            CaptureActionView::ClearClipboard,
        ),
        CaptureEventView::Cleared => (
            CaptureStateView { phase: CapturePhaseView::Copying, ..state },
            CaptureActionView::SendCopy,
        ),
        CaptureEventView::CopySent => (
            CaptureStateView { phase: CapturePhaseView::Polling(0), ..state },
            CaptureActionView::Wait(poll_interval_millis()),
        ),
        CaptureEventView::CopyFailed => (
            CaptureStateView { phase: CapturePhaseView::Finished, ..state },
            CaptureActionView::Abandon,
        ),
        CaptureEventView::Polled(text) => {
            let polls = match state.phase {
                CapturePhaseView::Polling(n) => n,
                _ => 0,
            };
            if text matches Some(t) && t.len() > 0 {
                capture_result(state.previous, text->0)
            } else if polls + 1 < poll_limit() {
                (
                    CaptureStateView {
                        phase: CapturePhaseView::Polling((polls + 1) as nat),
                        ..state
                    },
                    CaptureActionView::Wait(poll_interval_millis()),
                )
            } else {
                capture_result(state.previous, Seq::empty())
            }
        },
        CaptureEventView::Restored => (
            CaptureStateView { phase: CapturePhaseView::Finished, ..state },
            CaptureActionView::Done(
                match state.phase {
                    CapturePhaseView::Restoring(selected) => selected,
                    _ => Seq::empty(),
                },
            ),
        ),
    }
}

/// A capture that has not started.
pub fn capture_start() -> (s: CaptureState)
    ensures
        s@ == (CaptureStateView { previous: None, phase: CapturePhaseView::Idle }),
{
    CaptureState { previous: None, phase: CapturePhase::Idle }
}

fn finish_capture(previous: Option<String>, selected: String) -> (r: (CaptureState, CaptureAction))
    ensures
        (r.0@, r.1@) == capture_result(previous.deep_view(), selected@),
{
    match previous {
        Some(p) => {
            let back = p.clone();
            (
                CaptureState {
                    previous: Some(p),
                    phase: CapturePhase::Restoring { selected },
                },
                CaptureAction::Restore(back),
            )
        },
        None => (
            CaptureState { previous: None, phase: CapturePhase::Finished },
            CaptureAction::Done(selected),
        ),
    }
}

/// Whether `event` is the report that `state` waits for, and the state
/// can occur.
pub fn capture_awaits(state: &CaptureState, event: &CaptureEvent) -> (b: bool)
    ensures
        b == (capture_state_wf(state@) && capture_event_fits(state.phase@, event@)),
{
    match (&state.phase, event) {
        (CapturePhase::Idle, CaptureEvent::Started { .. }) => true,
        (CapturePhase::Clearing, CaptureEvent::Cleared) => true,
        (CapturePhase::Copying, CaptureEvent::CopySent) => true,
        (CapturePhase::Copying, CaptureEvent::CopyFailed) => true,
        (CapturePhase::Polling { polls }, CaptureEvent::Polled(_)) => *polls < 50,
        (CapturePhase::Restoring { .. }, CaptureEvent::Restored) => true,
        _ => false,
    }
}

/// Advances a capture by the event the application reports.
pub fn capture_step(state: CaptureState, event: CaptureEvent) -> (r: (CaptureState, CaptureAction))
    requires
        capture_state_wf(state@),
        capture_event_fits(state.phase@, event@),
    ensures
        (r.0@, r.1@) == capture_transition(state@, event@),
        capture_state_wf(r.0@),
{
    let CaptureState { previous, phase } = state;
    match event {
        CaptureEvent::Started { previous } => (
            CaptureState { previous, phase: CapturePhase::Clearing },
            CaptureAction::ClearClipboard,
        ),
        CaptureEvent::Cleared => (
            CaptureState { previous, phase: CapturePhase::Copying },
            CaptureAction::SendCopy,
        ),
        CaptureEvent::CopySent => (
            CaptureState { previous, phase: CapturePhase::Polling { polls: 0 } },
            CaptureAction::Wait { millis: 12 },
        ),
        CaptureEvent::CopyFailed => (
            CaptureState { previous, phase: CapturePhase::Finished },
            CaptureAction::Abandon,
        ),
        CaptureEvent::Polled(text) => {
            let polls: u32 = match phase {
                CapturePhase::Polling { polls } => polls,
                _ => 0,
            };
            match text {
                Some(t) if !t.as_str().is_empty() => finish_capture(previous, t),
                _ => {
                    if polls + 1 < 50 {
                        (
                            CaptureState { previous, phase: CapturePhase::Polling { polls: polls + 1 } },
                            CaptureAction::Wait { millis: 12 },
                        )
                    } else {
                        finish_capture(previous, String::new())
                    }
                },
            }
        },
        CaptureEvent::Restored => {
            let selected = match phase {
                CapturePhase::Restoring { selected } => selected,
                _ => String::new(),
            };
            (CaptureState { previous, phase: CapturePhase::Finished }, CaptureAction::Done(selected))
        },
    }
}

/// How many steps a capture has left at most.
pub open spec fn capture_steps_left(phase: CapturePhaseView) -> nat {
    match phase {
        CapturePhaseView::Idle => poll_limit() + 5,
        CapturePhaseView::Clearing => poll_limit() + 4,
        CapturePhaseView::Copying => poll_limit() + 3,
        CapturePhaseView::Polling(n) => if n < poll_limit() {
            (poll_limit() - n + 1) as nat
        } else {
            1
        },
        CapturePhaseView::Restoring(_) => 1,
        CapturePhaseView::Finished => 0,
    }
}

/// The clipboard is read at most fifty times: a wait (and read) is asked for
/// only as one of the first fifty, each report of a read counts one more,
/// and every step brings the capture closer to its end.
pub proof fn capture_polls_at_most_fifty(state: CaptureStateView, event: CaptureEventView)
    requires
        capture_state_wf(state),
        capture_event_fits(state.phase, event),
    ensures
        ({
            let (next, action) = capture_transition(state, event);
            &&& action is Wait ==> (next.phase matches CapturePhaseView::Polling(m) && m
                < poll_limit())
            &&& (state.phase is Polling && next.phase is Polling) ==> next.phase->Polling_0
                == state.phase->Polling_0 + 1
            &&& capture_steps_left(next.phase) < capture_steps_left(state.phase)
        }),
{
}

/// The selection is the first text that a read found, or empty after fifty
/// reads that found nothing; a read that finds nothing before the fiftieth
/// leads to another read.
pub proof fn capture_takes_first_text(state: CaptureStateView, text: Option<Seq<char>>)
    requires
        capture_state_wf(state),
        state.phase is Polling,
    ensures
        ({
            let (next, action) = capture_transition(state, CaptureEventView::Polled(text));
            let n = state.phase->Polling_0;
            let selected = if text matches Some(t) && t.len() > 0 {
                Some(text->0)
            } else if n + 1 < poll_limit() {
                None
            } else {
                Some(Seq::<char>::empty())
            };
            &&& selected is None ==> action == CaptureActionView::Wait(poll_interval_millis())
            &&& selected matches Some(s) ==> (action == CaptureActionView::Done(s) || next.phase
                == CapturePhaseView::Restoring(s))
        }),
{
}

/// What the clipboard held before is always put back before a capture
/// reports its result, and it is put back unchanged; the old text is kept
/// through every step. (A capture whose copy keystroke could not be sent is
/// abandoned without a result, and puts nothing back.)
pub proof fn capture_restores_previous(state: CaptureStateView, event: CaptureEventView)
    requires
        capture_state_wf(state),
        capture_event_fits(state.phase, event),
        !(event is Started),
    ensures
        ({
            let (next, action) = capture_transition(state, event);
            &&& next.previous == state.previous
            &&& action is Done ==> (state.previous is None || state.phase is Restoring)
            &&& action matches CaptureActionView::Restore(p) ==> state.previous == Some(p)
            &&& next.phase is Restoring ==> action is Restore
        }),
{
}

/// Whether the clipboard may be put back as it was before a capture: only
/// where nothing was written to it since the capture last wrote or read it,
/// so that text the user copied meanwhile is never overwritten.
pub fn should_restore_clipboard(current_change_count: isize, owned_change_count: isize) -> (b: bool)
    ensures
        b == (current_change_count == owned_change_count),
{
    current_change_count == owned_change_count
}

} // verus!
