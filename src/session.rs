use vstd::prelude::*;

use crate::frame::EncodeError;

verus! {

/// What the recording logic asks of the frame encoders on one tick.
#[derive(Clone, Copy, Debug, PartialEq, Eq, Structural)]
pub enum TickAction {
    /// Recording is off: running encoders are stopped, paused ones stay paused.
    Idle,
    /// Capture this tick's frame: encoders are started or resumed.
    Record,
    /// The armed single shot is over: encoders pause and recording goes off.
    Pause,
}

/// The capture state of one frame encoder.
#[derive(Clone, Copy, Debug, PartialEq, Eq, Structural)]
pub enum CaptureState {
    NotCapturing,
    Capturing,
    Paused,
}

/// The state reached from `s` by following `action`.
pub open spec fn capture_after(s: CaptureState, action: TickAction) -> CaptureState {
    match action {
        TickAction::Idle => if s == CaptureState::Capturing {
            CaptureState::NotCapturing
        } else {
            s
        },
        TickAction::Record => CaptureState::Capturing,
        TickAction::Pause => if s == CaptureState::Capturing {
            CaptureState::Paused
        } else {
            s
        },
    }
}

impl CaptureState {
    pub fn new() -> (r: CaptureState)
        ensures
            r == CaptureState::NotCapturing,
    {
        CaptureState::NotCapturing
    }

    /// Whether frames handed to the encoder are written. A paused encoder
    /// keeps its place but takes no frames.
    pub fn is_capturing(&self) -> (r: bool)
        ensures
            r <==> *self == CaptureState::Capturing,
    {
        match self {
            CaptureState::Capturing => true,
            _ => false,
        }
    }

    /// Starts capturing; an encoder already capturing or paused is left as it is.
    pub fn start(&mut self)
        ensures
            *old(self) == CaptureState::NotCapturing ==> *final(self) == CaptureState::Capturing,
            *old(self) != CaptureState::NotCapturing ==> *final(self) == *old(self),
    {
        if let CaptureState::NotCapturing = self {
            *self = CaptureState::Capturing;
        }
    }

    /// Pauses a capturing encoder.
    pub fn pause(&mut self)
        ensures
            *old(self) == CaptureState::Capturing ==> *final(self) == CaptureState::Paused,
            *old(self) != CaptureState::Capturing ==> *final(self) == *old(self),
    {
        if let CaptureState::Capturing = self {
            *self = CaptureState::Paused;
        }
    }

    /// Resumes a paused encoder.
    pub fn resume(&mut self)
        ensures
            *old(self) == CaptureState::Paused ==> *final(self) == CaptureState::Capturing,
            *old(self) != CaptureState::Paused ==> *final(self) == *old(self),
    {
        if let CaptureState::Paused = self {
            *self = CaptureState::Capturing;
        }
    }

    /// Stops the encoder, capturing or paused.
    pub fn stop(&mut self)
        ensures
            *final(self) == CaptureState::NotCapturing,
    {
        *self = CaptureState::NotCapturing;
    }

    /// Applies what the recording logic decided for this tick.
    pub fn follow(&mut self, action: TickAction)
        ensures
            *final(self) == capture_after(*old(self), action),
    {
        match action {
            TickAction::Idle => {
                if self.is_capturing() {
                    self.stop();
                }
            },
            TickAction::Record => {
                self.start();
                self.resume();
            },
            TickAction::Pause => self.pause(),
        }
    }
}

/// The recording session: whether recording is on, whether it is a single
/// shot, and whether the stop of a single shot is armed for the next tick.
/// It starts with every flag off and lasts as long as the process.
#[derive(Clone, Copy, Debug, PartialEq, Eq, Structural)]
pub struct Recording {
    pub active: bool,
    pub single: bool,
    pub stop_next_frame: bool,
}

/// The session and the action after one tick from `s`, given whether the
/// stop condition of a single shot fired on that tick.
pub open spec fn tick_result(s: Recording, stop_fires: bool) -> (Recording, TickAction) {
    if !s.active {
        (s, TickAction::Idle)
    } else if s.stop_next_frame {
        (Recording { active: false, single: false, stop_next_frame: false }, TickAction::Pause)
    } else if s.single && stop_fires {
        (Recording { stop_next_frame: true, ..s }, TickAction::Record)
    } else {
        (s, TickAction::Record)
    }
}

impl Recording {
    /// The idle session: every flag off.
    pub fn new() -> (r: Recording)
        ensures
            r == (Recording { active: false, single: false, stop_next_frame: false }),
    {
        Recording { active: false, single: false, stop_next_frame: false }
    }

    /// The record toggle: turns recording on when off and off when on.
    pub fn toggle(&mut self)
        ensures
            *final(self) == (Recording { active: !old(self).active, ..*old(self) }),
    {
        self.active = !self.active;
    }

    /// The single-shot trigger: recording goes on, marked as a single shot.
    pub fn single_shot(&mut self)
        ensures
            *final(self) == (Recording { active: true, single: true, ..*old(self) }),
    {
        self.active = true;
        self.single = true;
    }

    /// Ends recording at once, as after a frame that could not be written:
    /// the session is idle again with every flag off.
    pub fn stop(&mut self)
        ensures
            *final(self) == (Recording { active: false, single: false, stop_next_frame: false }),
    {
        self.active = false;
        self.single = false;
        self.stop_next_frame = false;
    }

    /// Takes the outcome of writing a frame: a frame that could not be
    /// written ends the recording, a written one changes nothing.
    pub fn after_frame(&mut self, written: Result<(), EncodeError>)
        ensures
            written is Ok ==> *final(self) == *old(self),
            written is Err ==> *final(self) == (Recording {
                active: false,
                single: false,
                stop_next_frame: false,
            }),
    {
        if written.is_err() {
            self.stop();
        }
    }

    /// One tick of a session whose single shot is one frame long: the stop
    /// fires on the first recorded tick of a single shot.
    pub fn advance(&mut self) -> (r: TickAction)
        ensures
            (*final(self), r) == tick_result(*old(self), old(self).single),
    {
        let stop_fires = self.single;
        self.tick(stop_fires)
    }

    /// One tick of the session. While recording, the tick's frame is
    /// captured; a single shot whose stop condition fires is armed to stop, and
    /// the tick after it pauses the encoders and turns recording off, so that
    /// the frame of the tick that decided the stop is still captured whole.
    pub fn tick(&mut self, stop_fires: bool) -> (r: TickAction)
        ensures
            (*final(self), r) == tick_result(*old(self), stop_fires),
    {
        if !self.active {
            TickAction::Idle
        } else if self.stop_next_frame {
            self.stop_next_frame = false;
            self.single = false;
            self.active = false;
            TickAction::Pause
        } else {
            if self.single && stop_fires {
                self.stop_next_frame = true;
            }
            TickAction::Record
        }
    }
}

/// A single shot captures the frame of the tick on which its stop fires, and
/// on the next tick, whatever happens then, pauses the encoders and leaves the
/// session idle with every flag off.
pub proof fn lemma_single_shot_stops_after_one_more_tick(s: Recording, later_fires: bool)
    requires
        s.active,
        s.single,
        !s.stop_next_frame,
    ensures
        tick_result(s, true).1 == TickAction::Record,
        tick_result(s, true).0.stop_next_frame,
        tick_result(tick_result(s, true).0, later_fires).1 == TickAction::Pause,
        tick_result(tick_result(s, true).0, later_fires).0 == (Recording {
            active: false,
            single: false,
            stop_next_frame: false,
        }),
{
}

/// An encoder that recorded a tick's frame is capturing when the armed stop
/// pauses it, so the pause takes effect and no frame of the recorded tick is
/// lost.
pub proof fn lemma_recorded_then_paused(c: CaptureState)
    ensures
        capture_after(c, TickAction::Record) == CaptureState::Capturing,
        capture_after(capture_after(c, TickAction::Record), TickAction::Pause)
            == CaptureState::Paused,
{
}

} // verus!
