//! The whole state of the adjuster and its decisions for one tick: first the
//! keys, with capture before edge detection, then the poll of the foreground
//! process. Each decision is a request to apply or restore the ramp, which
//! the activation state machine turns into a session with the display.

use vstd::prelude::*;
use crate::activation::{ActivationState, DeviceOutcome};
use crate::hotkeys::{EdgeDetector, HotkeyBinding, KeyTarget};
use crate::keys::KeySnapshot;
use crate::process::{
    file_name_units,
    get_foreground_process,
    is_target_process,
    names_match,
    utf16_lossy,
};
use crate::ramp::RampTable;

verus! {

/// Milliseconds that have to pass after one poll of the foreground process
/// before the next.
pub const POLL_INTERVAL_MS: u64 = 300;

/// Auto mode: whether it is on, the process it watches for, and when, in
/// milliseconds of the caller's clock, the foreground process was last
/// polled.
#[derive(Debug)]
pub struct AutoModeConfig {
    pub enabled: bool,
    pub target_process: String,
    pub last_check_ms: u64,
}

/// The edge detectors of the two bound keys.
#[derive(Clone, Copy, Debug)]
pub struct InputSignalSampler {
    pub toggle: EdgeDetector,
    pub auto: EdgeDetector,
}

/// Everything the adjuster remembers from one tick to the next.
#[derive(Debug)]
pub struct AppState {
    pub activation: ActivationState,
    pub binding: HotkeyBinding,
    pub sampler: InputSignalSampler,
    pub auto_mode: AutoModeConfig,
}

impl AutoModeConfig {
    /// Whether a poll is due at `now_ms`: auto mode is on and more than the
    /// poll interval has passed since the last poll.
    pub open spec fn is_due(self, now_ms: u64) -> bool {
        self.enabled && now_ms - self.last_check_ms > POLL_INTERVAL_MS
    }
}

impl AppState {
    /// The state at start: the display's own ramp in effect, the bindings at
    /// their first keys with no capture armed, no key seen down, auto mode
    /// off and watching for `RustClient.exe`, no poll made.
    pub open spec fn is_initial(self) -> bool {
        &&& self.activation == ActivationState::idle()
        &&& self.binding == HotkeyBinding::initial()
        &&& !self.sampler.toggle.last_down
        &&& !self.sampler.auto.last_down
        &&& !self.auto_mode.enabled
        &&& self.auto_mode.target_process@ == "RustClient.exe"@
        &&& self.auto_mode.last_check_ms == 0
    }

    /// The state after a tick without capture in which the two bound keys
    /// were sampled as given: both detectors take their sample, and a press
    /// of the auto key turns auto mode over.
    pub open spec fn after_edges(self, toggle_down: bool, auto_down: bool) -> AppState {
        AppState {
            activation: self.activation,
            binding: self.binding,
            sampler: InputSignalSampler {
                toggle: self.sampler.toggle.after(toggle_down),
                auto: self.sampler.auto.after(auto_down),
            },
            auto_mode: AutoModeConfig {
                enabled: self.auto_mode.enabled != self.sampler.auto.fires(auto_down),
                target_process: self.auto_mode.target_process,
                last_check_ms: self.auto_mode.last_check_ms,
            },
        }
    }

    /// The request that such a tick makes. Outside auto mode a press of the
    /// toggle key asks for the other of the two activation states. In auto
    /// mode the toggle key is ignored, and a press of the auto key, which
    /// ends auto mode, asks to restore.
    pub open spec fn edge_request(self, toggle_down: bool, auto_down: bool) -> Option<bool> {
        if self.sampler.toggle.fires(toggle_down) && !self.auto_mode.enabled {
            Some(!self.activation.is_active)
        } else if self.sampler.auto.fires(auto_down) && self.auto_mode.enabled {
            Some(false)
        } else {
            None
        }
    }

    /// The state after the key handling of one tick. While a capture is
    /// armed only the capture runs, and the detectors keep what they
    /// remember.
    pub open spec fn after_keys(self, keys: KeySnapshot) -> AppState {
        if self.binding.waiting_for_key is Some {
            AppState {
                activation: self.activation,
                binding: self.binding.after_capture(keys),
                sampler: self.sampler,
                auto_mode: self.auto_mode,
            }
        } else {
            self.after_edges(
                keys.down_at(self.binding.toggle_key as int),
                keys.down_at(self.binding.auto_key as int),
            )
        }
    }

    /// The request that the key handling of one tick makes.
    pub open spec fn key_request(self, keys: KeySnapshot) -> Option<bool> {
        if self.binding.waiting_for_key is Some {
            None
        } else {
            self.edge_request(
                keys.down_at(self.binding.toggle_key as int),
                keys.down_at(self.binding.auto_key as int),
            )
        }
    }

    /// The state after the poll step of a tick at `now_ms`: a poll that is
    /// due is recorded as made now.
    pub open spec fn after_poll(self, now_ms: u64) -> AppState {
        if self.auto_mode.is_due(now_ms) {
            AppState {
                activation: self.activation,
                binding: self.binding,
                sampler: self.sampler,
                auto_mode: AutoModeConfig {
                    enabled: self.auto_mode.enabled,
                    target_process: self.auto_mode.target_process,
                    last_check_ms: now_ms,
                },
            }
        } else {
            self
        }
    }

    /// The request that the poll step makes when the foreground process has
    /// the image path `path`: none unless a poll is due; else to apply the
    /// ramp exactly if the process is the target.
    pub open spec fn poll_request(self, now_ms: u64, path: Seq<u16>) -> Option<bool> {
        if self.auto_mode.is_due(now_ms) {
            Some(names_match(utf16_lossy(file_name_units(path)), self.auto_mode.target_process@))
        } else {
            None
        }
    }

    /// Handles the keys of one tick and gives the request they make, if any.
    pub fn handle_keys(&mut self, keys: &KeySnapshot) -> (request: Option<bool>)
        ensures
            *final(self) == old(self).after_keys(*keys),
            request == old(self).key_request(*keys),
    {
        if self.binding.waiting_for_key.is_some() {
            self.binding.capture(keys);
            return None;
        }
        let toggle_down = keys.is_down(self.binding.toggle_key);
        let auto_down = keys.is_down(self.binding.auto_key);
        let toggle_pressed = self.sampler.toggle.sample(toggle_down);
        let auto_pressed = self.sampler.auto.sample(auto_down);
        let mut request: Option<bool> = None;
        if toggle_pressed && !self.auto_mode.enabled {
            request = Some(!self.activation.is_active);
        }
        if auto_pressed {
            self.auto_mode.enabled = !self.auto_mode.enabled;
            if !self.auto_mode.enabled {
                request = Some(false);
            }
        }
        request
    }

    /// Whether the foreground process has to be polled at `now_ms`.
    pub fn poll_due(&self, now_ms: u64) -> (due: bool)
        ensures
            due == self.auto_mode.is_due(now_ms),
    {
        self.auto_mode.enabled && now_ms > self.auto_mode.last_check_ms && now_ms
            - self.auto_mode.last_check_ms > POLL_INTERVAL_MS
    }

    /// Runs the poll step of a tick with the image path of the foreground
    /// process, empty if it could not be determined, and gives the request.
    pub fn poll_foreground(&mut self, now_ms: u64, path: &Vec<u16>) -> (request: Option<bool>)
        ensures
            *final(self) == old(self).after_poll(now_ms),
            request == old(self).poll_request(now_ms, path@),
    {
        if !self.poll_due(now_ms) {
            return None;
        }
        let name = get_foreground_process(path);
        let is_target = is_target_process(name.as_str(), self.auto_mode.target_process.as_str());
        self.auto_mode.last_check_ms = now_ms;
        Some(is_target)
    }

    /// Arms a capture for one of the two bindings. From the next tick on the
    /// key handling only looks for the key to bind, until one is down.
    pub fn arm_capture(&mut self, target: KeyTarget)
        ensures
            final(self).binding.waiting_for_key == Some(target),
            final(self).binding.toggle_key == old(self).binding.toggle_key,
            final(self).binding.auto_key == old(self).binding.auto_key,
            final(self).activation == old(self).activation,
            final(self).sampler == old(self).sampler,
            final(self).auto_mode == old(self).auto_mode,
    {
        self.binding.arm(target);
    }

    /// Sets the process that auto mode watches for.
    pub fn set_target_process(&mut self, name: String)
        ensures
            final(self).auto_mode.target_process == name,
            final(self).auto_mode.enabled == old(self).auto_mode.enabled,
            final(self).auto_mode.last_check_ms == old(self).auto_mode.last_check_ms,
            final(self).activation == old(self).activation,
            final(self).binding == old(self).binding,
            final(self).sampler == old(self).sampler,
    {
        self.auto_mode.target_process = name;
    }

    /// Switches auto mode on or off from outside the key handling. Switching
    /// it off asks to restore the ramp.
    pub fn set_auto_mode(&mut self, enabled: bool) -> (request: Option<bool>)
        ensures
            final(self).auto_mode.enabled == enabled,
            final(self).auto_mode.target_process == old(self).auto_mode.target_process,
            final(self).auto_mode.last_check_ms == old(self).auto_mode.last_check_ms,
            final(self).activation == old(self).activation,
            final(self).binding == old(self).binding,
            final(self).sampler == old(self).sampler,
            request == if old(self).auto_mode.enabled && !enabled {
                Some(false)
            } else {
                None
            },
    {
        let was_enabled = self.auto_mode.enabled;
        self.auto_mode.enabled = enabled;
        if was_enabled && !enabled {
            Some(false)
        } else {
            None
        }
    }
}

impl Default for AppState {
    fn default() -> (state: AppState)
        ensures
            state.is_initial(),
    {
        AppState {
            activation: ActivationState::new(),
            binding: HotkeyBinding::new(),
            sampler: InputSignalSampler { toggle: EdgeDetector::new(), auto: EdgeDetector::new() },
            auto_mode: AutoModeConfig {
                enabled: false,
                target_process: "RustClient.exe".to_owned(),
                last_check_ms: 0,
            },
        }
    }
}

/// In auto mode the toggle key decides nothing: whatever is sampled of it,
/// the request of the tick and auto mode afterwards are the same, and the
/// activation state is not touched.
pub proof fn lemma_toggle_key_is_ignored_in_auto_mode(
    state: AppState,
    toggle_down: bool,
    other_toggle_down: bool,
    auto_down: bool,
)
    requires
        state.auto_mode.enabled,
    ensures
        state.edge_request(toggle_down, auto_down) == state.edge_request(
            other_toggle_down,
            auto_down,
        ),
        state.after_edges(toggle_down, auto_down).auto_mode == state.after_edges(
            other_toggle_down,
            auto_down,
        ).auto_mode,
        state.after_edges(toggle_down, auto_down).activation == state.activation,
        !state.sampler.auto.fires(auto_down) ==> state.edge_request(toggle_down, auto_down)
            is None,
{
}

/// A press of the auto key in auto mode ends auto mode and asks to restore
/// the ramp, in that same tick and whatever the process last polled was; a
/// session held for that request without a refused write leaves the
/// display's own ramp in effect.
pub proof fn lemma_leaving_auto_mode_restores(
    state: AppState,
    toggle_down: bool,
    auto_down: bool,
    current: Option<RampTable>,
)
    requires
        state.auto_mode.enabled,
        state.sampler.auto.fires(auto_down),
    ensures
        !state.after_edges(toggle_down, auto_down).auto_mode.enabled,
        state.edge_request(toggle_down, auto_down) == Some(false),
        !state.after_edges(toggle_down, auto_down).activation.after_update(
            false,
            DeviceOutcome::Completed { current, write_rejected: false },
        ).is_active,
{
}

/// After a poll at `now_ms` no poll is due until more than the poll interval
/// has passed: the foreground process is not polled twice within it.
pub proof fn lemma_poll_is_not_repeated(state: AppState, now_ms: u64, later_ms: u64)
    requires
        state.auto_mode.is_due(now_ms),
        later_ms - now_ms <= POLL_INTERVAL_MS,
    ensures
        !state.after_poll(now_ms).auto_mode.is_due(later_ms),
{
}

} // verus!
