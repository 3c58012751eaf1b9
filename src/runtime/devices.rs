//! Device entry points of the native runtime.
use vstd::prelude::*;
use crate::config::{configuration_supported, Calibration, ColorResolution, DepthMode, DeviceConfiguration, HardwareVersion};
use crate::error::Status;
use crate::refcount::{is_live, referenced, reference_slot, slot_is_live, NULL_HANDLE};
use super::{Api, DeviceSlot};

verus! {

impl Api {
    /// Whether `h` is the handle of an open device.
    pub open spec fn device_is_open(&self, h: usize) -> bool {
        1 <= h <= self.devices.len() && self.devices@[h - 1].open
    }

    /// Everything but the device table is as in `other`.
    pub open spec fn same_but_devices(&self, other: &Api) -> bool {
        &&& self.image_refs == other.image_refs
        &&& self.images == other.images
        &&& self.capture_refs == other.capture_refs
        &&& self.captures == other.captures
        &&& self.frame_refs == other.frame_refs
        &&& self.frames == other.frames
        &&& self.trackers == other.trackers
        &&& self.detections == other.detections
        &&& self.recordings == other.recordings
        &&& self.playbacks == other.playbacks
    }

    /// Plugs in a device; returns its index.
    pub fn install_device(
        &mut self,
        serial: Vec<u8>,
        raw_calibration: Vec<u8>,
        sync_in_connected: bool,
        sync_out_connected: bool,
    ) -> (index: u32)
        requires
            old(self).wf(),
            old(self).devices.len() + 1 < u32::MAX,
            serial.len() < usize::MAX,
        ensures
            final(self).wf(),
            index == old(self).devices.len(),
            final(self).devices@.len() == old(self).devices@.len() + 1,
            final(self).devices@.drop_last() == old(self).devices@,
            final(self).devices@.last().serial == serial,
            final(self).devices@.last().raw_calibration == raw_calibration,
            final(self).devices@.last().sync_in_connected == sync_in_connected,
            final(self).devices@.last().sync_out_connected == sync_out_connected,
            !final(self).devices@.last().open,
            !final(self).devices@.last().cameras_running,
            !final(self).devices@.last().imu_running,
            final(self).devices@.last().queue@.len() == 0,
            final(self).devices@.last().color_controls@.len() == 0,
            final(self).devices@.last().version is None,
            final(self).same_but_devices(old(self)),
    {
        let index = self.devices.len() as u32;
        let slot = DeviceSlot {
            serial,
            raw_calibration,
            open: false,
            cameras_running: false,
            imu_running: false,
            sync_in_connected,
            sync_out_connected,
            version: None,
            color_controls: Vec::new(),
            queue: Vec::new(),
        };
        self.devices.push(slot);
        assert(self.devices@.drop_last() =~= old(self).devices@);
        proof {
            assert forall|i: int| 0 <= i < self.devices.len() implies #[trigger] self.devices@[i].serial.len() < usize::MAX by {
                if i < old(self).devices.len() {
                    assert(self.devices@[i] == old(self).devices@[i]);
                }
            }
        }
        index
    }

    /// Opens the device at `index`: fails where no such device is installed
    /// or it is open already.
    pub fn device_open(&mut self, index: u32) -> (r: (Status, usize))
        requires
            old(self).wf(),
        ensures
            final(self).wf(),
            final(self).same_but_devices(old(self)),
            if index < old(self).devices.len() && !old(self).devices@[index as int].open {
                &&& r == (Status::Succeeded, (index + 1) as usize)
                &&& final(self).devices@ == old(self).devices@.update(
                    index as int,
                    DeviceSlot { open: true, ..old(self).devices@[index as int] },
                )
            } else {
                &&& r == (Status::Failed, NULL_HANDLE)
                &&& final(self).devices == old(self).devices
            },
    {
        let i = index as usize;
        if i < self.devices.len() && !self.devices[i].open {
            self.devices[i].open = true;
            proof { self.lemma_devices_wf(old(self).devices@, i as int); }
            (Status::Succeeded, i + 1)
        } else {
            (Status::Failed, NULL_HANDLE)
        }
    }

    /// Closes an open device, which stops its cameras and motion sensor.
    pub fn device_close(&mut self, h: usize)
        requires
            old(self).wf(),
        ensures
            final(self).wf(),
            final(self).same_but_devices(old(self)),
            old(self).device_is_open(h) ==> final(self).devices@ == old(self).devices@.update(
                h - 1,
                DeviceSlot {
                    open: false,
                    cameras_running: false,
                    imu_running: false,
                    ..old(self).devices@[h - 1]
                },
            ),
            !old(self).device_is_open(h) ==> final(self).devices == old(self).devices,
    {
        if h >= 1 && h <= self.devices.len() && self.devices[h - 1].open {
            self.devices[h - 1].open = false;
            self.devices[h - 1].cameras_running = false;
            self.devices[h - 1].imu_running = false;
            proof { self.lemma_devices_wf(old(self).devices@, h - 1); }
        }
    }

    /// Starts the cameras of an open device that is not streaming yet, with
    /// settings it supports.
    pub fn device_start_cameras(&mut self, h: usize, config: &DeviceConfiguration) -> (r: Status)
        requires
            old(self).wf(),
        ensures
            final(self).wf(),
            final(self).same_but_devices(old(self)),
            if old(self).device_is_open(h) && !old(self).devices@[h - 1].cameras_running
                && configuration_supported(*config) {
                &&& r == Status::Succeeded
                &&& final(self).devices@ == old(self).devices@.update(
                    h - 1,
                    DeviceSlot { cameras_running: true, ..old(self).devices@[h - 1] },
                )
            } else {
                &&& r == Status::Failed
                &&& final(self).devices == old(self).devices
            },
    {
        if h >= 1 && h <= self.devices.len() && self.devices[h - 1].open
            && !self.devices[h - 1].cameras_running && config.is_supported() {
            self.devices[h - 1].cameras_running = true;
            proof { self.lemma_devices_wf(old(self).devices@, h - 1); }
            Status::Succeeded
        } else {
            Status::Failed
        }
    }

    /// Stops the cameras of an open device.
    pub fn device_stop_cameras(&mut self, h: usize)
        requires
            old(self).wf(),
        ensures
            final(self).wf(),
            final(self).same_but_devices(old(self)),
            old(self).device_is_open(h) ==> final(self).devices@ == old(self).devices@.update(
                h - 1,
                DeviceSlot { cameras_running: false, ..old(self).devices@[h - 1] },
            ),
            !old(self).device_is_open(h) ==> final(self).devices == old(self).devices,
    {
        if h >= 1 && h <= self.devices.len() && self.devices[h - 1].open {
            self.devices[h - 1].cameras_running = false;
            proof { self.lemma_devices_wf(old(self).devices@, h - 1); }
        }
    }

    /// Starts the motion sensor of an open device whose cameras run.
    pub fn device_start_imu(&mut self, h: usize) -> (r: Status)
        requires
            old(self).wf(),
        ensures
            final(self).wf(),
            final(self).same_but_devices(old(self)),
            if old(self).device_is_open(h) && old(self).devices@[h - 1].cameras_running
                && !old(self).devices@[h - 1].imu_running {
                &&& r == Status::Succeeded
                &&& final(self).devices@ == old(self).devices@.update(
                    h - 1,
                    DeviceSlot { imu_running: true, ..old(self).devices@[h - 1] },
                )
            } else {
                &&& r == Status::Failed
                &&& final(self).devices == old(self).devices
            },
    {
        if h >= 1 && h <= self.devices.len() && self.devices[h - 1].open
            && self.devices[h - 1].cameras_running && !self.devices[h - 1].imu_running {
            self.devices[h - 1].imu_running = true;
            proof { self.lemma_devices_wf(old(self).devices@, h - 1); }
            Status::Succeeded
        } else {
            Status::Failed
        }
    }

    /// Stops the motion sensor of an open device.
    pub fn device_stop_imu(&mut self, h: usize)
        requires
            old(self).wf(),
        ensures
            final(self).wf(),
            final(self).same_but_devices(old(self)),
            old(self).device_is_open(h) ==> final(self).devices@ == old(self).devices@.update(
                h - 1,
                DeviceSlot { imu_running: false, ..old(self).devices@[h - 1] },
            ),
            !old(self).device_is_open(h) ==> final(self).devices == old(self).devices,
    {
        if h >= 1 && h <= self.devices.len() && self.devices[h - 1].open {
            self.devices[h - 1].imu_running = false;
            proof { self.lemma_devices_wf(old(self).devices@, h - 1); }
        }
    }

    /// Takes the oldest capture off the queue of a streaming device. The
    /// queue's reference passes to the caller. An empty queue reports a
    /// timeout whatever the wait: this runtime never blocks.
    pub fn device_get_capture(&mut self, h: usize, timeout_in_ms: i32) -> (r: (Status, usize))
        requires
            old(self).wf(),
        ensures
            final(self).wf(),
            final(self).same_but_devices(old(self)),
            !(old(self).device_is_open(h) && old(self).devices@[h - 1].cameras_running) ==> {
                &&& r == (Status::Failed, NULL_HANDLE)
                &&& final(self).devices == old(self).devices
            },
            old(self).device_is_open(h) && old(self).devices@[h - 1].cameras_running ==> {
                let queue = old(self).devices@[h - 1].queue@;
                if queue.len() == 0 {
                    &&& r == (Status::Timeout, NULL_HANDLE)
                    &&& final(self).devices == old(self).devices
                } else {
                    &&& r == (Status::Succeeded, queue[0])
                    &&& final(self).devices@.len() == old(self).devices@.len()
                    &&& forall|i: int| 0 <= i < old(self).devices.len() && i != h - 1
                        ==> final(self).devices@[i] == old(self).devices@[i]
                    &&& final(self).devices@[h - 1].queue@ == queue.subrange(1, queue.len() as int)
                    &&& final(self).devices@[h - 1].serial == old(self).devices@[h - 1].serial
                    &&& final(self).devices@[h - 1].raw_calibration == old(self).devices@[h - 1].raw_calibration
                    &&& final(self).devices@[h - 1].open
                    &&& final(self).devices@[h - 1].cameras_running
                    &&& final(self).devices@[h - 1].imu_running == old(self).devices@[h - 1].imu_running
                    &&& final(self).devices@[h - 1].sync_in_connected == old(self).devices@[h - 1].sync_in_connected
                    &&& final(self).devices@[h - 1].sync_out_connected == old(self).devices@[h - 1].sync_out_connected
                }
            },
    {
        if h >= 1 && h <= self.devices.len() && self.devices[h - 1].open
            && self.devices[h - 1].cameras_running {
            if self.devices[h - 1].queue.len() == 0 {
                (Status::Timeout, NULL_HANDLE)
            } else {
                let c = self.devices[h - 1].queue.remove(0);
                proof {
                    assert(self.devices@[h - 1].queue@ =~= old(self).devices@[h - 1].queue@.subrange(
                        1,
                        old(self).devices@[h - 1].queue@.len() as int,
                    ));
                    assert forall|i: int| 0 <= i < self.devices.len() implies #[trigger] self.devices@[i].serial.len() < usize::MAX by {
                        if i != h - 1 {
                            assert(self.devices@[i] == old(self).devices@[i]);
                        }
                    }
                }
                (Status::Succeeded, c)
            }
        } else {
            (Status::Failed, NULL_HANDLE)
        }
    }

    /// Whether cables are plugged into the sync-in and sync-out jacks of an
    /// open device.
    pub fn device_sync_jack(&self, h: usize) -> (r: (Status, bool, bool))
        requires
            self.wf(),
        ensures
            self.device_is_open(h) ==> r == (
                Status::Succeeded,
                self.devices@[h - 1].sync_in_connected,
                self.devices@[h - 1].sync_out_connected,
            ),
            !self.device_is_open(h) ==> r == (Status::Failed, false, false),
    {
        if h >= 1 && h <= self.devices.len() && self.devices[h - 1].open {
            (Status::Succeeded, self.devices[h - 1].sync_in_connected, self.devices[h - 1].sync_out_connected)
        } else {
            (Status::Failed, false, false)
        }
    }

    /// The cameras of the device at `index` produce `capture`: it joins the
    /// end of the device's queue, which takes a reference to it. Fails where
    /// the device is not streaming or the capture is not live.
    pub fn queue_capture(&mut self, index: u32, capture: usize) -> (r: Status)
        requires
            old(self).wf(),
        ensures
            final(self).wf(),
            ({
                let ok = index < old(self).devices.len()
                    && old(self).devices@[index as int].cameras_running
                    && is_live(old(self).capture_refs@, capture)
                    && old(self).capture_refs@[capture - 1] < u64::MAX;
                &&& r == (if ok { Status::Succeeded } else { Status::Failed })
                &&& ok ==> {
                    &&& final(self).capture_refs@ == referenced(old(self).capture_refs@, capture)
                    &&& final(self).devices@.len() == old(self).devices@.len()
                    &&& forall|i: int| 0 <= i < old(self).devices.len() && i != index
                        ==> final(self).devices@[i] == old(self).devices@[i]
                    &&& final(self).devices@[index as int].queue@ == old(self).devices@[index as int].queue@.push(capture)
                    &&& final(self).devices@[index as int].open == old(self).devices@[index as int].open
                    &&& final(self).devices@[index as int].cameras_running
                }
                &&& !ok ==> final(self).capture_refs == old(self).capture_refs && final(self).devices == old(self).devices
            }),
            final(self).images == old(self).images,
            final(self).image_refs == old(self).image_refs,
            final(self).captures == old(self).captures,
            final(self).frame_refs == old(self).frame_refs,
            final(self).frames == old(self).frames,
            final(self).trackers == old(self).trackers,
            final(self).detections == old(self).detections,
            final(self).recordings == old(self).recordings,
            final(self).playbacks == old(self).playbacks,
    {
        let i = index as usize;
        if i < self.devices.len() && self.devices[i].cameras_running && slot_is_live(&self.capture_refs, capture)
            && self.capture_refs[capture - 1] < u64::MAX {
            self.devices[i].queue.push(capture);
            reference_slot(&mut self.capture_refs, capture);
            proof {
                assert forall|j: int| 0 <= j < self.devices.len() implies #[trigger] self.devices@[j].serial.len() < usize::MAX by {
                    if j != i {
                        assert(self.devices@[j] == old(self).devices@[j]);
                    }
                }
            }
            Status::Succeeded
        } else {
            Status::Failed
        }
    }

    /// The calibration of an open device for a depth mode and a color
    /// resolution.
    pub fn device_get_calibration(&self, h: usize, depth_mode: DepthMode, color_resolution: ColorResolution) -> (r: (Status, Calibration))
        requires
            self.wf(),
        ensures
            r.0 == (if self.device_is_open(h) { Status::Succeeded } else { Status::Failed }),
            r.1 == (Calibration { depth_mode, color_resolution }),
    {
        let calibration = Calibration { depth_mode, color_resolution };
        if h >= 1 && h <= self.devices.len() && self.devices[h - 1].open {
            (Status::Succeeded, calibration)
        } else {
            (Status::Failed, calibration)
        }
    }

    /// The device at `index` reports firmware versions `version`.
    pub fn install_version(&mut self, index: u32, version: HardwareVersion) -> (r: Status)
        requires
            old(self).wf(),
        ensures
            final(self).wf(),
            final(self).same_but_devices(old(self)),
            index < old(self).devices.len() ==> r == Status::Succeeded && final(self).devices@ == old(self).devices@.update(
                index as int,
                DeviceSlot { version: Some(version), ..old(self).devices@[index as int] },
            ),
            index >= old(self).devices.len() ==> r == Status::Failed && final(self).devices == old(self).devices,
    {
        let i = index as usize;
        if i >= self.devices.len() {
            return Status::Failed;
        }
        self.devices[i].version = Some(version);
        proof { self.lemma_devices_wf(old(self).devices@, i as int); }
        Status::Succeeded
    }

    /// The firmware versions of an open device that reports them.
    pub fn device_get_version(&self, h: usize) -> (r: Option<HardwareVersion>)
        requires
            self.wf(),
        ensures
            r == (if self.device_is_open(h) { self.devices@[h - 1].version } else { None }),
    {
        if h >= 1 && h <= self.devices.len() && self.devices[h - 1].open {
            self.devices[h - 1].version
        } else {
            None
        }
    }

    proof fn lemma_devices_wf(&self, before: Seq<DeviceSlot>, i: int)
        requires
            0 <= i < before.len(),
            self.devices@.len() == before.len(),
            forall|j: int| 0 <= j < before.len() && j != i ==> self.devices@[j] == before[j],
            self.devices@[i].serial == before[i].serial,
            forall|j: int| 0 <= j < before.len() ==> #[trigger] before[j].serial.len() < usize::MAX,
        ensures
            forall|j: int| 0 <= j < self.devices.len() ==> #[trigger] self.devices@[j].serial.len() < usize::MAX,
    {
        assert forall|j: int| 0 <= j < self.devices.len() implies #[trigger] self.devices@[j].serial.len() < usize::MAX by {
            if j != i {
                assert(self.devices@[j] == before[j]);
            }
        }
    }
}

} // verus!
