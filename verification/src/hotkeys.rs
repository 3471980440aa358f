//! The two key bindings with their one-shot capture, and edge detection on a
//! polled key.

use vstd::prelude::*;
use crate::keys::KeySnapshot;

verus! {

/// The key code bound to the manual toggle at start: F9.
pub const DEFAULT_TOGGLE_KEY: i32 = 0x78;

/// The key code bound to the auto-mode toggle at start: F10.
pub const DEFAULT_AUTO_KEY: i32 = 0x79;

/// Which of the two bindings a capture is for.
#[derive(Clone, Copy, Debug, PartialEq, Eq, Structural)]
pub enum KeyTarget {
    Toggle,
    Auto,
}

/// The two bound key codes, and the binding that waits for its next key
/// while a capture is armed.
#[derive(Clone, Copy, Debug)]
pub struct HotkeyBinding {
    pub toggle_key: i32,
    pub auto_key: i32,
    pub waiting_for_key: Option<KeyTarget>,
}

impl HotkeyBinding {
    /// The bindings at start, with no capture armed.
    pub open spec fn initial() -> HotkeyBinding {
        HotkeyBinding {
            toggle_key: DEFAULT_TOGGLE_KEY,
            auto_key: DEFAULT_AUTO_KEY,
            waiting_for_key: None,
        }
    }

    /// The bindings with `code` bound to `target` and no capture armed.
    pub open spec fn bound(self, target: KeyTarget, code: i32) -> HotkeyBinding {
        match target {
            KeyTarget::Toggle => HotkeyBinding {
                toggle_key: code,
                auto_key: self.auto_key,
                waiting_for_key: None,
            },
            KeyTarget::Auto => HotkeyBinding {
                toggle_key: self.toggle_key,
                auto_key: code,
                waiting_for_key: None,
            },
        }
    }

    /// The bindings after one tick of an armed capture: the first key that
    /// was down is bound to the waiting target and the capture is over; with
    /// no key down, or no capture armed, nothing changes.
    pub open spec fn after_capture(self, keys: KeySnapshot) -> HotkeyBinding {
        match (self.waiting_for_key, keys.first_down()) {
            (Some(target), Some(code)) => self.bound(target, code),
            _ => self,
        }
    }

    /// The bindings at start.
    pub fn new() -> (binding: HotkeyBinding)
        ensures
            binding == HotkeyBinding::initial(),
    {
        HotkeyBinding {
            toggle_key: DEFAULT_TOGGLE_KEY,
            auto_key: DEFAULT_AUTO_KEY,
            waiting_for_key: None,
        }
    }

    /// Arms a capture for `target`; one armed before is replaced.
    pub fn arm(&mut self, target: KeyTarget)
        ensures
            final(self).toggle_key == old(self).toggle_key,
            final(self).auto_key == old(self).auto_key,
            final(self).waiting_for_key == Some(target),
    {
        self.waiting_for_key = Some(target);
    }

    /// Runs one tick of an armed capture, and says whether a key was bound.
    pub fn capture(&mut self, keys: &KeySnapshot) -> (captured: bool)
        ensures
            *final(self) == old(self).after_capture(*keys),
            captured == (old(self).waiting_for_key is Some && keys.first_down() is Some),
    {
        match self.waiting_for_key {
            Some(target) => {
                match keys.first_key_down() {
                    Some(code) => {
                        match target {
                            KeyTarget::Toggle => {
                                self.toggle_key = code;
                            },
                            KeyTarget::Auto => {
                                self.auto_key = code;
                            },
                        }
                        self.waiting_for_key = None;
                        true
                    },
                    None => false,
                }
            },
            None => false,
        }
    }
}

/// Edge detection on one polled key: remembers whether the key was down at
/// the tick before.
#[derive(Clone, Copy, Debug)]
pub struct EdgeDetector {
    pub last_down: bool,
}

impl EdgeDetector {
    /// Whether a sample `down` is a press: the key is down now and was up at
    /// the tick before.
    pub open spec fn fires(self, down: bool) -> bool {
        down && !self.last_down
    }

    /// The detector after the sample `down`.
    pub open spec fn after(self, down: bool) -> EdgeDetector {
        EdgeDetector { last_down: down }
    }

    /// The detector after all of `samples`, taken in order.
    pub open spec fn after_all(self, samples: Seq<bool>) -> EdgeDetector
        decreases samples.len(),
    {
        if samples.len() == 0 {
            self
        } else {
            self.after_all(samples.drop_last()).after(samples.last())
        }
    }

    /// Whether the sample at `tick` of `samples` is a press.
    pub open spec fn fires_at(self, samples: Seq<bool>, tick: int) -> bool {
        self.after_all(samples.take(tick)).fires(samples[tick])
    }

    /// The number of presses among `samples`.
    pub open spec fn presses(self, samples: Seq<bool>) -> nat
        decreases samples.len(),
    {
        if samples.len() == 0 {
            0
        } else {
            self.presses(samples.drop_last()) + if self.after_all(samples.drop_last()).fires(
                samples.last(),
            ) {
                1nat
            } else {
                0nat
            }
        }
    }

    /// A detector for a key that has not been seen down.
    pub fn new() -> (detector: EdgeDetector)
        ensures
            !detector.last_down,
    {
        EdgeDetector { last_down: false }
    }

    /// Takes this tick's sample and says whether it is a press.
    pub fn sample(&mut self, down: bool) -> (pressed: bool)
        ensures
            pressed == old(self).fires(down),
            *final(self) == old(self).after(down),
    {
        let pressed = down && !self.last_down;
        self.last_down = down;
        pressed
    }
}

/// After any sample at all the detector remembers that sample.
pub proof fn lemma_detector_remembers_last(start: EdgeDetector, samples: Seq<bool>)
    requires
        samples.len() > 0,
    ensures
        start.after_all(samples).last_down == samples.last(),
{
}

/// A key that is up before and then down for every one of a run of ticks is
/// pressed at the first tick of the run and at no other: a held key fires
/// once.
pub proof fn lemma_held_key_fires_once(start: EdgeDetector, samples: Seq<bool>)
    requires
        !start.last_down,
        samples.len() >= 1,
        forall|i: int| 0 <= i < samples.len() ==> samples[i],
    ensures
        forall|tick: int|
            0 <= tick < samples.len() ==> (#[trigger] start.fires_at(samples, tick) <==> tick == 0),
        start.presses(samples) == 1,
    decreases samples.len(),
{
    assert forall|tick: int| 0 <= tick < samples.len() implies (#[trigger] start.fires_at(
        samples,
        tick,
    ) <==> tick == 0) by {
        let before = samples.take(tick);
        if tick == 0 {
            assert(before.len() == 0);
        } else {
            assert(before.last() == samples[tick - 1]);
            lemma_detector_remembers_last(start, before);
        }
    }
    if samples.len() == 1 {
        assert(samples.drop_last().len() == 0);
        assert(start.presses(samples.drop_last()) == 0);
    } else {
        let front = samples.drop_last();
        assert forall|i: int| 0 <= i < front.len() implies front[i] by {
            assert(front[i] == samples[i]);
        }
        lemma_held_key_fires_once(start, front);
        lemma_detector_remembers_last(start, front);
    }
}

/// A key that stays up never fires.
pub proof fn lemma_idle_key_never_fires(start: EdgeDetector, samples: Seq<bool>)
    requires
        forall|i: int| 0 <= i < samples.len() ==> !samples[i],
    ensures
        start.presses(samples) == 0,
    decreases samples.len(),
{
    if samples.len() > 0 {
        let front = samples.drop_last();
        assert forall|i: int| 0 <= i < front.len() implies !front[i] by {
            assert(front[i] == samples[i]);
        }
        lemma_idle_key_never_fires(start, front);
    }
}

} // verus!
