//! Color-camera settings of the native runtime.
use vstd::prelude::*;
use crate::config::{accepts, ColorControlCapabilities, ColorControlCommand, ColorControlMode};
use crate::error::Status;
use super::{Api, ColorControlSlot, DeviceSlot};

verus! {

/// The position of the setting for `c`, the latest offered; -1 where there
/// is none.
pub open spec fn control_position(cs: Seq<ColorControlSlot>, c: ColorControlCommand) -> int
    decreases cs.len(),
{
    if cs.len() == 0 {
        -1
    } else if cs.last().command == c {
        cs.len() - 1
    } else {
        control_position(cs.drop_last(), c)
    }
}

pub proof fn lemma_control_position(cs: Seq<ColorControlSlot>, c: ColorControlCommand)
    ensures
        -1 <= control_position(cs, c) < cs.len(),
        control_position(cs, c) >= 0 ==> cs[control_position(cs, c)].command == c,
    decreases cs.len(),
{
    if cs.len() > 0 && cs.last().command != c {
        lemma_control_position(cs.drop_last(), c);
    }
}

/// The devices `after` are `before` but for the color settings of device
/// `i`, which are `controls`.
pub open spec fn controls_replaced(before: Seq<DeviceSlot>, after: Seq<DeviceSlot>, i: int, controls: Seq<ColorControlSlot>) -> bool {
    &&& after.len() == before.len()
    &&& forall|j: int| 0 <= j < before.len() && j != i ==> after[j] == before[j]
    &&& after[i].color_controls@ == controls
    &&& after[i].serial == before[i].serial
    &&& after[i].raw_calibration == before[i].raw_calibration
    &&& after[i].open == before[i].open
    &&& after[i].cameras_running == before[i].cameras_running
    &&& after[i].imu_running == before[i].imu_running
    &&& after[i].sync_in_connected == before[i].sync_in_connected
    &&& after[i].sync_out_connected == before[i].sync_out_connected
    &&& after[i].queue == before[i].queue
}

/// A setting after `mode` and `value` were applied: the value changes only
/// in manual mode.
pub open spec fn applied(s: ColorControlSlot, mode: ColorControlMode, value: i32) -> ColorControlSlot {
    ColorControlSlot {
        mode,
        value: if mode == ColorControlMode::Manual { value } else { s.value },
        ..s
    }
}

fn find_control(cs: &Vec<ColorControlSlot>, c: ColorControlCommand) -> (r: Option<usize>)
    ensures
        r matches Some(i) ==> i == control_position(cs@, c) && i < cs.len(),
        r is None ==> control_position(cs@, c) == -1,
{
    proof { lemma_control_position(cs@, c); }
    let mut i = cs.len();
    assert(cs@.take(i as int) =~= cs@);
    while i > 0
        invariant
            i <= cs.len(),
            control_position(cs@, c) == control_position(cs@.take(i as int), c),
        decreases i,
    {
        if cs[i - 1].command == c {
            return Some(i - 1);
        }
        assert(cs@.take(i as int).drop_last() =~= cs@.take(i - 1));
        i = i - 1;
    }
    None
}

impl Api {
    /// The setting for `c` of device `h`, where the device is open and its
    /// camera offers it.
    pub open spec fn control_of(&self, h: usize, c: ColorControlCommand) -> Option<ColorControlSlot> {
        if self.device_is_open(h) && control_position(self.devices@[h - 1].color_controls@, c) >= 0 {
            Some(self.devices@[h - 1].color_controls@[control_position(self.devices@[h - 1].color_controls@, c)])
        } else {
            None
        }
    }

    /// Whether device `h` offers setting `c` and it accepts `mode` and
    /// `value`.
    pub open spec fn control_accepts(&self, h: usize, c: ColorControlCommand, mode: ColorControlMode, value: i32) -> bool {
        self.control_of(h, c) matches Some(s) && accepts(s.capabilities, mode, value)
    }

    /// The camera of the device at `index` offers setting `command`, at its
    /// default mode and value.
    pub fn install_color_control(&mut self, index: u32, command: ColorControlCommand, capabilities: ColorControlCapabilities) -> (r: Status)
        requires
            old(self).wf(),
        ensures
            final(self).wf(),
            final(self).same_but_devices(old(self)),
            index < old(self).devices.len() ==> {
                &&& r == Status::Succeeded
                &&& controls_replaced(old(self).devices@, final(self).devices@, index as int,
                    old(self).devices@[index as int].color_controls@.push(ColorControlSlot {
                        command,
                        capabilities,
                        mode: capabilities.default_mode,
                        value: capabilities.default_value,
                    }))
            },
            index >= old(self).devices.len() ==> r == Status::Failed && final(self).devices == old(self).devices,
    {
        let i = index as usize;
        if i >= self.devices.len() {
            return Status::Failed;
        }
        self.devices[i].color_controls.push(ColorControlSlot {
            command,
            capabilities,
            mode: capabilities.default_mode,
            value: capabilities.default_value,
        });
        proof { self.lemma_devices_kept_wf(old(self).devices@, i as int); }
        Status::Succeeded
    }

    /// The mode and value of setting `command` of device `h`.
    pub fn device_get_color_control(&self, h: usize, command: ColorControlCommand) -> (r: (Status, ColorControlMode, i32))
        requires
            self.wf(),
        ensures
            self.control_of(h, command) matches Some(s) ==> r == (Status::Succeeded, s.mode, s.value),
            self.control_of(h, command) is None ==> r == (Status::Failed, ColorControlMode::Auto, 0i32),
    {
        if !(h >= 1 && h <= self.devices.len() && self.devices[h - 1].open) {
            return (Status::Failed, ColorControlMode::Auto, 0);
        }
        match find_control(&self.devices[h - 1].color_controls, command) {
            Some(i) => {
                let s = self.devices[h - 1].color_controls[i];
                (Status::Succeeded, s.mode, s.value)
            },
            None => (Status::Failed, ColorControlMode::Auto, 0),
        }
    }

    /// What setting `command` of device `h` accepts.
    pub fn device_get_color_control_capabilities(&self, h: usize, command: ColorControlCommand) -> (r: (Status, ColorControlCapabilities))
        requires
            self.wf(),
        ensures
            self.control_of(h, command) matches Some(s) ==> r == (Status::Succeeded, s.capabilities),
            self.control_of(h, command) is None ==> r.0 == Status::Failed,
    {
        let none = ColorControlCapabilities {
            supports_auto: false,
            min_value: 0,
            max_value: 0,
            step_value: 0,
            default_value: 0,
            default_mode: ColorControlMode::Auto,
        };
        if !(h >= 1 && h <= self.devices.len() && self.devices[h - 1].open) {
            return (Status::Failed, none);
        }
        match find_control(&self.devices[h - 1].color_controls, command) {
            Some(i) => (Status::Succeeded, self.devices[h - 1].color_controls[i].capabilities),
            None => (Status::Failed, none),
        }
    }

    /// Sets setting `command` of device `h` to `mode`, and in manual mode to
    /// `value`; fails where the setting does not accept them.
    pub fn device_set_color_control(&mut self, h: usize, command: ColorControlCommand, mode: ColorControlMode, value: i32) -> (r: Status)
        requires
            old(self).wf(),
        ensures
            final(self).wf(),
            final(self).same_but_devices(old(self)),
            if old(self).control_accepts(h, command, mode, value) {
                let cs = old(self).devices@[h - 1].color_controls@;
                let s = old(self).control_of(h, command)->Some_0;
                &&& r == Status::Succeeded
                &&& controls_replaced(old(self).devices@, final(self).devices@, h - 1,
                    cs.update(control_position(cs, command), applied(s, mode, value)))
            } else {
                r == Status::Failed && final(self).devices == old(self).devices
            },
    {
        if !(h >= 1 && h <= self.devices.len() && self.devices[h - 1].open) {
            return Status::Failed;
        }
        let i = match find_control(&self.devices[h - 1].color_controls, command) {
            Some(i) => i,
            None => return Status::Failed,
        };
        proof { lemma_control_position(self.devices@[h - 1].color_controls@, command); }
        let s = self.devices[h - 1].color_controls[i];
        let ok = match mode {
            ColorControlMode::Auto => s.capabilities.supports_auto,
            ColorControlMode::Manual => s.capabilities.min_value <= value && value <= s.capabilities.max_value,
        };
        if !ok {
            return Status::Failed;
        }
        let updated = ColorControlSlot {
            mode,
            value: if mode == ColorControlMode::Manual { value } else { s.value },
            ..s
        };
        self.devices[h - 1].color_controls.set(i, updated);
        proof { self.lemma_devices_kept_wf(old(self).devices@, h - 1); }
        Status::Succeeded
    }

    proof fn lemma_devices_kept_wf(&self, before: Seq<DeviceSlot>, i: int)
        requires
            0 <= i < before.len(),
            self.devices@.len() == before.len(),
            forall|j: int| 0 <= j < before.len() && j != i ==> self.devices@[j] == before[j],
            self.devices@[i].serial == before[i].serial,
            forall|j: int| 0 <= j < before.len() ==> #[trigger] before[j].serial.len() < usize::MAX,
        ensures
            forall|j: int| 0 <= j < self.devices.len() ==> #[trigger] self.devices@[j].serial.len() < usize::MAX,
    {
        assert forall|j: int| 0 <= j < self.devices.len() implies #[trigger] self.devices@[j].serial.len() < usize::MAX by {
            if j != i {
                assert(self.devices@[j] == before[j]);
            }
        }
    }
}

} // verus!
