//! The capture session and its state machine.
//!
//! A session moves through device selection, capture, pause and
//! termination in response to UI events and capture-source events. The
//! surrounding program polls both sources, feeds each event to a handler
//! together with the current time, and performs whatever action the
//! handler returns (opening a capture, displaying and exporting a line).
//! UI events are handled before the capture source is polled on each loop
//! iteration, so a quit request is never starved by a stream of frames.
//!
//! Sequence numbers: a frame's ordinal number is the count of frames
//! observed before it, whether or not a filter kept them, so numbering is
//! stable regardless of filter configuration. The statistics total counts
//! kept frames only.

use vstd::prelude::*;
use vstd::string::*;
use crate::buffer::{DisplayBuffer, push_model};
use crate::stats::{StatsTracker, record_model};
use crate::filter::{FilterRule, should_display_spec, should_display};
use crate::classify::{classify, summary_text_spec};

verus! {

/// Where the session stands.
#[derive(Clone, Copy, PartialEq, Eq, Structural, Debug)]
pub enum Phase {
    /// Choosing a device; no capture open.
    SelectingDevice,
    /// Device confirmed, capture open, not consuming frames.
    Paused,
    /// Consuming frames.
    Capturing,
    /// Finished; no further transitions.
    Terminated,
}

/// One user-interface event.
#[derive(Clone, Copy, PartialEq, Eq, Structural, Debug)]
pub enum UiEvent {
    NavigateUp,
    NavigateDown,
    Confirm,
    ToggleCapture,
    Quit,
    Other,
}

/// One event from the capture source.
pub enum CaptureEvent {
    /// A raw frame arrived.
    Frame { data: Vec<u8> },
    /// The non-blocking read expired without a frame: the idle case.
    TimedOut,
    /// The source failed for good (for example, the device disappeared).
    Fatal,
}

/// What the surrounding program must do after a handler call.
pub enum Action {
    Nothing,
    /// Attempt to open a capture on the device at this index.
    OpenCapture { device_index: usize },
    /// Show this line and append it to the export sink, if any.
    Display { line: String },
}

/// The live state of one run: selection, phase, counters, window, rules.
pub struct Session {
    pub device_count: usize,
    pub selected: usize,
    pub phase: Phase,
    pub frames_seen: u64,
    pub stats: StatsTracker,
    pub buffer: DisplayBuffer,
    pub filters: Vec<FilterRule>,
}

/// The two sessions agree everywhere except possibly the selection index,
/// which is `sel` after.
pub open spec fn only_selected_changed(pre: Session, post: Session, sel: int) -> bool {
    &&& post.device_count == pre.device_count
    &&& post.selected == sel
    &&& post.phase == pre.phase
    &&& post.frames_seen == pre.frames_seen
    &&& post.stats == pre.stats
    &&& post.buffer@ == pre.buffer@
    &&& post.filters == pre.filters
}

/// The two sessions agree everywhere except possibly the phase, which is
/// `ph` after.
pub open spec fn only_phase_changed(pre: Session, post: Session, ph: Phase) -> bool {
    &&& post.device_count == pre.device_count
    &&& post.selected == pre.selected
    &&& post.phase == ph
    &&& post.frames_seen == pre.frames_seen
    &&& post.stats == pre.stats
    &&& post.buffer@ == pre.buffer@
    &&& post.filters == pre.filters
}

/// What a UI event does: navigation moves the selection modulo the device
/// count while selecting; confirm requests a capture on the selected
/// device; the toggle key flips between capturing and paused without
/// closing the session; quit terminates from any state; anything else is
/// ignored.
pub open spec fn ui_transition(pre: Session, post: Session, ev: UiEvent, a: Action) -> bool {
    match ev {
        UiEvent::Quit => only_phase_changed(pre, post, Phase::Terminated) && a is Nothing,
        UiEvent::NavigateDown => if pre.phase is SelectingDevice {
            only_selected_changed(pre, post, (pre.selected + 1) % (pre.device_count as int))
                && a is Nothing
        } else {
            post == pre && a is Nothing
        },
        UiEvent::NavigateUp => if pre.phase is SelectingDevice {
            only_selected_changed(
                pre,
                post,
                (pre.selected + pre.device_count - 1) % (pre.device_count as int),
            ) && a is Nothing
        } else {
            post == pre && a is Nothing
        },
        UiEvent::Confirm => if pre.phase is SelectingDevice {
            &&& post == pre
            &&& a matches Action::OpenCapture { device_index } && device_index == pre.selected
        } else {
            post == pre && a is Nothing
        },
        UiEvent::ToggleCapture => if pre.phase is Capturing {
            only_phase_changed(pre, post, Phase::Paused) && a is Nothing
        } else if pre.phase is Paused {
            only_phase_changed(pre, post, Phase::Capturing) && a is Nothing
        } else {
            post == pre && a is Nothing
        },
        UiEvent::Other => post == pre && a is Nothing,
    }
}

/// What a capture-source event does while capturing: a timeout is a
/// no-op; a fatal error terminates; a frame is classified under the
/// current observed-frame number, then either kept (statistics recorded,
/// line pushed into the window and handed out for display and export) or
/// dropped by the filter, the observed count growing either way.
pub open spec fn capture_transition(
    pre: Session,
    post: Session,
    data: Option<Seq<u8>>,
    fatal: bool,
    now: int,
    a: Action,
) -> bool {
    match data {
        Option::None => if fatal {
            only_phase_changed(pre, post, Phase::Terminated) && a is Nothing
        } else {
            post == pre && a is Nothing
        },
        Option::Some(frame) => {
            let text = summary_text_spec(frame, pre.frames_seen as int);
            &&& post.device_count == pre.device_count
            &&& post.selected == pre.selected
            &&& post.phase == pre.phase
            &&& post.filters == pre.filters
            &&& post.frames_seen == pre.frames_seen + 1
            &&& if should_display_spec(text, pre.filters@) {
                &&& post.stats.model() == record_model(pre.stats.model(), now)
                &&& post.buffer@ == push_model(pre.buffer@, text)
                &&& a matches Action::Display { line } && line@ == text
            } else {
                &&& post.stats == pre.stats
                &&& post.buffer@ == pre.buffer@
                &&& a is Nothing
            }
        },
    }
}

impl Session {
    /// The session's structural invariant: a non-empty device list, a
    /// valid selection index, and well-formed statistics and window.
    pub open spec fn wf(&self) -> bool {
        &&& self.device_count > 0
        &&& self.selected < self.device_count
        &&& self.stats.wf()
        &&& self.buffer.wf()
    }

    /// A fresh session over `device_count` enumerated devices, with the
    /// rule list parsed at startup, at time `now_ms`.
    pub fn new(device_count: usize, filters: Vec<FilterRule>, now_ms: u64) -> (s: Session)
        requires
            device_count > 0,
        ensures
            s.wf(),
            s.device_count == device_count,
            s.selected == 0,
            s.phase is SelectingDevice,
            s.frames_seen == 0,
            s.stats == StatsTracker::new_spec(now_ms),
            s.buffer@ == Seq::<Seq<char>>::empty(),
            s.filters == filters,
    {
        Session {
            device_count,
            selected: 0,
            phase: Phase::SelectingDevice,
            frames_seen: 0,
            stats: StatsTracker::new(now_ms),
            buffer: DisplayBuffer::new(),
            filters,
        }
    }

    /// Handle one UI event.
    pub fn handle_ui(&mut self, ev: UiEvent) -> (a: Action)
        requires
            old(self).wf(),
        ensures
            final(self).wf(),
            ui_transition(*old(self), *final(self), ev, a),
    {
        match ev {
            UiEvent::Quit => {
                self.phase = Phase::Terminated;
                Action::Nothing
            },
            UiEvent::NavigateDown => {
                if matches!(self.phase, Phase::SelectingDevice) {
                    self.selected = (self.selected + 1) % self.device_count;
                }
                Action::Nothing
            },
            UiEvent::NavigateUp => {
                if matches!(self.phase, Phase::SelectingDevice) {
                    if self.selected == 0 {
                        self.selected = self.device_count - 1;
                    } else {
                        self.selected = self.selected - 1;
                    }
                    proof {
                        let n = old(self).device_count as int;
                        let k = old(self).selected as int;
                        if k == 0 {
                            vstd::arithmetic::div_mod::lemma_small_mod((n - 1) as nat, n as nat);
                        } else {
                            vstd::arithmetic::div_mod::lemma_mod_add_multiples_vanish(k - 1, n);
                            vstd::arithmetic::div_mod::lemma_small_mod((k - 1) as nat, n as nat);
                        }
                    }
                }
                Action::Nothing
            },
            UiEvent::Confirm => {
                if matches!(self.phase, Phase::SelectingDevice) {
                    Action::OpenCapture { device_index: self.selected }
                } else {
                    Action::Nothing
                }
            },
            UiEvent::ToggleCapture => {
                match self.phase {
                    Phase::Capturing => {
                        self.phase = Phase::Paused;
                    },
                    Phase::Paused => {
                        self.phase = Phase::Capturing;
                    },
                    _ => {},
                }
                Action::Nothing
            },
            UiEvent::Other => Action::Nothing,
        }
    }

    /// Record the outcome of an attempt to open a capture on the selected
    /// device: success starts capturing with the start time reset;
    /// failure terminates the session.
    pub fn handle_open_result(&mut self, opened: bool, now_ms: u64)
        requires
            old(self).wf(),
        ensures
            final(self).wf(),
            opened ==> {
                &&& final(self).phase is Capturing
                &&& final(self).stats == StatsTracker::new_spec(now_ms)
                &&& final(self).device_count == old(self).device_count
                &&& final(self).selected == old(self).selected
                &&& final(self).frames_seen == old(self).frames_seen
                &&& final(self).buffer@ == old(self).buffer@
                &&& final(self).filters == old(self).filters
            },
            !opened ==> only_phase_changed(*old(self), *final(self), Phase::Terminated),
    {
        if opened {
            self.stats = StatsTracker::new(now_ms);
            self.phase = Phase::Capturing;
        } else {
            self.phase = Phase::Terminated;
        }
    }

    /// Handle one capture-source event while capturing.
    pub fn handle_capture(&mut self, ev: CaptureEvent, now_ms: u64) -> (a: Action)
        requires
            old(self).wf(),
            old(self).phase is Capturing,
            now_ms >= old(self).stats.last_update_ms,
            old(self).stats.total < u64::MAX,
            old(self).frames_seen < u64::MAX,
        ensures
            final(self).wf(),
            match ev {
                CaptureEvent::Frame { data } => capture_transition(
                    *old(self),
                    *final(self),
                    Option::Some(data@),
                    false,
                    now_ms as int,
                    a,
                ),
                CaptureEvent::TimedOut => capture_transition(
                    *old(self),
                    *final(self),
                    Option::None,
                    false,
                    now_ms as int,
                    a,
                ),
                CaptureEvent::Fatal => capture_transition(
                    *old(self),
                    *final(self),
                    Option::None,
                    true,
                    now_ms as int,
                    a,
                ),
            },
    {
        match ev {
            CaptureEvent::TimedOut => Action::Nothing,
            CaptureEvent::Fatal => {
                self.phase = Phase::Terminated;
                Action::Nothing
            },
            CaptureEvent::Frame { data } => {
                let summary = classify(data.as_slice(), self.frames_seen);
                self.frames_seen = self.frames_seen + 1;
                if should_display(summary.text.as_str(), &self.filters) {
                    self.stats.record(now_ms);
                    let line = summary.text;
                    self.buffer.push(line.clone());
                    Action::Display { line }
                } else {
                    Action::Nothing
                }
            },
        }
    }
}

} // verus!
