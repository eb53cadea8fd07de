//! Key repetition.

use crate::keys::Modifiers;
use vstd::prelude::*;

verus! {

/// How the compositor wants held keys to repeat.
#[derive(PartialEq, Eq, Structural, Copy, Clone, Debug)]
pub enum RepeatInfo {
    /// Keys repeat `rate` times per second after `delay` milliseconds.
    Repeat { rate: u32, delay: u32 },
    /// Keys do not repeat.
    Disable,
}

/// Active keyboard repeat state.
#[derive(PartialEq, Eq, Structural, Copy, Clone, Debug)]
pub struct CurrentRepeat {
    /// Milliseconds between two repetitions.
    pub interval: u32,
    /// Time of the last key event in milliseconds.
    pub time: u32,
    /// Raw code of the key that repeats.
    pub raw: u32,
}

impl CurrentRepeat {
    pub fn new(raw: u32, time: u32, interval: u32) -> (repeat: Self)
        ensures
            repeat == (CurrentRepeat { interval, time, raw }),
    {
        Self { time, interval, raw }
    }

    /// Get the next key event timestamp. The clock of key events counts
    /// milliseconds in 32 bits and wraps around.
    pub fn next_time(&mut self) -> (time: u32)
        ensures
            time == (old(self).time + old(self).interval) % 0x1_0000_0000,
            *final(self) == (CurrentRepeat { time, ..*old(self) }),
    {
        self.time = self.time.wrapping_add(self.interval);
        self.time
    }
}

/// When a held key repeats.
#[derive(PartialEq, Eq, Structural, Copy, Clone, Debug)]
pub struct RepeatTiming {
    /// Milliseconds until the first repetition.
    pub delay: u64,
    /// Milliseconds between two repetitions.
    pub interval: u64,
}

/// The timing of repetitions that `info` asks for, none if keys do not
/// repeat.
pub open spec fn repeat_timing(info: RepeatInfo) -> Option<RepeatTiming> {
    match info {
        RepeatInfo::Repeat { rate, delay } => if rate == 0 {
            None
        } else {
            Some(RepeatTiming { delay: delay as u64, interval: (1000int / (rate as int)) as u64 })
        },
        RepeatInfo::Disable => None,
    }
}

/// Key status tracking.
#[derive(PartialEq, Eq, Structural, Copy, Clone, Debug)]
pub struct KeyboardState {
    /// How held keys repeat.
    pub repeat_info: RepeatInfo,
    /// Modifiers that are held.
    pub modifiers: Modifiers,
    /// The repetition that is under way.
    pub current_repeat: Option<CurrentRepeat>,
}

/// What to do about the repetition timer after a key event.
#[derive(PartialEq, Eq, Structural, Copy, Clone, Debug)]
pub enum RepeatRequest {
    /// Leave the timer as it is.
    Keep,
    /// Stop the timer if one runs.
    Cancel,
    /// Stop the timer if one runs and start one with this timing.
    Restart(RepeatTiming),
}

impl KeyboardState {
    pub fn new() -> (state: Self)
        ensures
            state == (KeyboardState {
                repeat_info: RepeatInfo::Disable,
                modifiers: Modifiers { ctrl: false, alt: false, shift: false, logo: false },
                current_repeat: None,
            }),
    {
        Self {
            repeat_info: RepeatInfo::Disable,
            modifiers: Modifiers { ctrl: false, alt: false, shift: false, logo: false },
            current_repeat: None,
        }
    }

    /// Handle new key press: a key that is no modifier starts to repeat, if
    /// keys repeat at all, and ends the repetition of any other key.
    pub fn press_key(&mut self, time: u32, raw: u32, is_modifier_key: bool) -> (request:
        RepeatRequest)
        ensures
            request == if is_modifier_key {
                RepeatRequest::Keep
            } else {
                match repeat_timing(old(self).repeat_info) {
                    Some(timing) => RepeatRequest::Restart(timing),
                    None => RepeatRequest::Cancel,
                }
            },
            *final(self) == if is_modifier_key {
                *old(self)
            } else {
                KeyboardState {
                    current_repeat: match old(self).repeat_info {
                        RepeatInfo::Repeat { rate, delay } => if rate == 0 {
                            None
                        } else {
                            Some(CurrentRepeat { interval: delay, time, raw })
                        },
                        RepeatInfo::Disable => None,
                    },
                    ..*old(self)
                }
            },
    {
        if is_modifier_key {
            return RepeatRequest::Keep;
        }
        self.request_repeat(time, raw)
    }

    /// Handle new key release: ends the repetition of the key that was
    /// released.
    pub fn release_key(&mut self, raw: u32) -> (request: RepeatRequest)
        ensures
            request == if old(self).current_repeat matches Some(repeat) && repeat.raw == raw {
                RepeatRequest::Cancel
            } else {
                RepeatRequest::Keep
            },
            *final(self) == if request == RepeatRequest::Cancel {
                KeyboardState { current_repeat: None, ..*old(self) }
            } else {
                *old(self)
            },
    {
        match self.current_repeat {
            Some(repeat) => {
                if repeat.raw == raw {
                    self.current_repeat = None;
                    return RepeatRequest::Cancel;
                }
                RepeatRequest::Keep
            },
            None => RepeatRequest::Keep,
        }
    }

    /// Stage new key repetition.
    fn request_repeat(&mut self, time: u32, raw: u32) -> (request: RepeatRequest)
        ensures
            request == match repeat_timing(old(self).repeat_info) {
                Some(timing) => RepeatRequest::Restart(timing),
                None => RepeatRequest::Cancel,
            },
            *final(self) == (KeyboardState {
                current_repeat: match old(self).repeat_info {
                    RepeatInfo::Repeat { rate, delay } => if rate == 0 {
                        None
                    } else {
                        Some(CurrentRepeat { interval: delay, time, raw })
                    },
                    RepeatInfo::Disable => None,
                },
                ..*old(self)
            }),
    {
        self.current_repeat = None;
        match self.repeat_info {
            RepeatInfo::Repeat { rate, delay } => {
                if rate == 0 {
                    return RepeatRequest::Cancel;
                }
                self.current_repeat = Some(CurrentRepeat::new(raw, time, delay));
                RepeatRequest::Restart(
                    RepeatTiming { delay: delay as u64, interval: 1000 / (rate as u64) },
                )
            },
            RepeatInfo::Disable => RepeatRequest::Cancel,
        }
    }

    /// Cancel currently staged key repetition.
    pub fn cancel_repeat(&mut self)
        ensures
            *final(self) == (KeyboardState { current_repeat: None, ..*old(self) }),
    {
        self.current_repeat = None;
    }
}

/// Clipboard content cache.
#[derive(Debug)]
pub struct ClipboardState {
    /// Serial of the last clipboard request.
    pub serial: u32,
    /// Text that was copied last.
    pub text: String,
}

impl ClipboardState {
    /// Clipboard cache without text.
    pub fn new() -> (state: Self)
        ensures
            state.serial == 0,
            state.text@ == Seq::<char>::empty(),
    {
        ClipboardState { serial: 0, text: String::new() }
    }

    /// The serial for the next clipboard request; serials count in 32 bits
    /// and wrap around.
    pub fn next_serial(&mut self) -> (serial: u32)
        ensures
            serial == (old(self).serial + 1) % 0x1_0000_0000,
            final(self).serial == serial,
            final(self).text == old(self).text,
    {
        self.serial = self.serial.wrapping_add(1);
        self.serial
    }
}

} // verus!
