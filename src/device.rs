//! Exclusively owned wrapper of an open device.
use vstd::prelude::*;
use crate::capture::Capture;
use crate::config::{
    configuration_supported, Calibration, ColorControlCapabilities, ColorControlCommand, ColorControlMode, ColorResolution,
    DepthMode, DeviceConfiguration, HardwareVersion,
};
use crate::runtime::controls::{applied, control_position, controls_replaced};
use crate::error::Error;
use crate::fetch::{bytes_view, chars_view, fetch_bytes, fetch_text, fetched, fetched_text};
use crate::refcount::NULL_HANDLE;
use crate::runtime::{Api, DeviceSlot};
use crate::runtime::blobs::Blob;

verus! {

/// The wait that never times out.
pub const WAIT_INFINITE: i32 = -1;

/// What reading the next capture of device `h` yields: the oldest queued
/// capture; a timeout where none is queued; a failure where the device is not
/// open or its cameras are not streaming.
pub open spec fn next_capture(api: &Api, h: usize) -> Result<usize, Error> {
    if !(api.device_is_open(h) && api.devices@[h - 1].cameras_running) {
        Err(Error::Failed)
    } else if api.devices@[h - 1].queue@.len() == 0 {
        Err(Error::Timeout)
    } else {
        Ok(api.devices@[h - 1].queue@[0])
    }
}

/// The device table after the oldest capture of device `h` was read.
pub open spec fn capture_taken(before: Seq<DeviceSlot>, after: Seq<DeviceSlot>, h: usize) -> bool {
    let queue = before[h - 1].queue@;
    &&& after.len() == before.len()
    &&& forall|i: int| 0 <= i < before.len() && i != h - 1 ==> after[i] == before[i]
    &&& after[h - 1].queue@ == queue.subrange(1, queue.len() as int)
    &&& after[h - 1].serial == before[h - 1].serial
    &&& after[h - 1].raw_calibration == before[h - 1].raw_calibration
    &&& after[h - 1].open
    &&& after[h - 1].cameras_running
    &&& after[h - 1].imu_running == before[h - 1].imu_running
    &&& after[h - 1].sync_in_connected == before[h - 1].sync_in_connected
    &&& after[h - 1].sync_out_connected == before[h - 1].sync_out_connected
}

/// The handles of a capture read.
pub open spec fn capture_view(r: Result<Capture, Error>) -> Result<usize, Error> {
    match r {
        Ok(c) => Ok(c@),
        Err(e) => Err(e),
    }
}

/// An open device. It is owned by whoever opened it; `release` closes it.
pub struct Device {
    handle: usize,
}

impl View for Device {
    type V = usize;

    /// The native handle this wrapper owns; the null handle once released.
    closed spec fn view(&self) -> usize {
        self.handle
    }
}

impl Device {
    /// The native handle this wrapper owns; the null handle once released.
    pub fn handle(&self) -> (r: usize)
        ensures
            r == self@,
    {
        self.handle
    }
    /// Opens the device at `index`; fails where no such device is installed
    /// or it is open already.
    pub fn new(api: &mut Api, index: u32) -> (r: Result<Device, Error>)
        requires
            old(api).wf(),
        ensures
            final(api).wf(),
            final(api).same_but_devices(old(api)),
            if index < old(api).devices.len() && !old(api).devices@[index as int].open {
                &&& r matches Ok(d) && d@ == index + 1
                &&& final(api).devices@ == old(api).devices@.update(
                    index as int,
                    DeviceSlot { open: true, ..old(api).devices@[index as int] },
                )
            } else {
                &&& r matches Err(e) && e == Error::Failed
                &&& final(api).devices == old(api).devices
            },
    {
        let (status, handle) = api.device_open(index);
        if status.is_success() {
            Ok(Device { handle })
        } else {
            Err(Error::from_status(status))
        }
    }

    /// Closes the device, once: the wrapper then holds the null handle, so
    /// that a second release does nothing.
    pub fn release(&mut self, api: &mut Api)
        requires
            old(api).wf(),
        ensures
            final(api).wf(),
            final(self)@ == NULL_HANDLE,
            final(api).same_but_devices(old(api)),
            old(api).device_is_open(old(self)@) ==> final(api).devices@ == old(api).devices@.update(
                old(self)@ - 1,
                DeviceSlot {
                    open: false,
                    cameras_running: false,
                    imu_running: false,
                    ..old(api).devices@[old(self)@ - 1]
                },
            ),
            !old(api).device_is_open(old(self)@) ==> final(api).devices == old(api).devices,
    {
        api.device_close(self.handle);
        self.handle = NULL_HANDLE;
    }

    /// Starts the cameras with `configuration`.
    pub fn start_cameras(&self, api: &mut Api, configuration: &DeviceConfiguration) -> (r: Result<(), Error>)
        requires
            old(api).wf(),
        ensures
            final(api).wf(),
            final(api).same_but_devices(old(api)),
            if old(api).device_is_open(self@) && !old(api).devices@[self@ - 1].cameras_running
                && configuration_supported(*configuration) {
                &&& r is Ok
                &&& final(api).devices@ == old(api).devices@.update(
                    self@ - 1,
                    DeviceSlot { cameras_running: true, ..old(api).devices@[self@ - 1] },
                )
            } else {
                &&& r matches Err(e) && e == Error::Failed
                &&& final(api).devices == old(api).devices
            },
    {
        let status = api.device_start_cameras(self.handle, configuration);
        status.to_result(())
    }

    /// Stops the cameras and the motion sensor.
    pub fn stop_cameras(&self, api: &mut Api)
        requires
            old(api).wf(),
        ensures
            final(api).wf(),
            final(api).same_but_devices(old(api)),
            old(api).device_is_open(self@) ==> final(api).devices@ == old(api).devices@.update(
                self@ - 1,
                DeviceSlot { cameras_running: false, imu_running: false, ..old(api).devices@[self@ - 1] },
            ),
            !old(api).device_is_open(self@) ==> final(api).devices == old(api).devices,
    {
        api.device_stop_cameras(self.handle);
        api.device_stop_imu(self.handle);
    }

    /// Reads the next capture, waiting up to `timeout_in_ms` milliseconds
    /// (`WAIT_INFINITE`: without limit). A timeout and a failure are told
    /// apart, and neither makes a wrapper or changes the runtime.
    pub fn get_capture(&self, api: &mut Api, timeout_in_ms: i32) -> (r: Result<Capture, Error>)
        requires
            old(api).wf(),
        ensures
            final(api).wf(),
            capture_view(r) == next_capture(old(api), self@),
            r is Err ==> *final(api) == *old(api),
            r is Ok ==> {
                &&& final(api).same_but_devices(old(api))
                &&& capture_taken(old(api).devices@, final(api).devices@, self@)
            },
    {
        let (status, handle) = api.device_get_capture(self.handle, timeout_in_ms);
        if status.is_success() {
            Ok(Capture::from_handle(handle))
        } else {
            Err(Error::from_status(status))
        }
    }

    /// Reads the next capture, waiting without limit.
    pub fn get_capture_wait_infinite(&self, api: &mut Api) -> (r: Result<Capture, Error>)
        requires
            old(api).wf(),
        ensures
            final(api).wf(),
            capture_view(r) == next_capture(old(api), self@),
            r is Err ==> *final(api) == *old(api),
            r is Ok ==> {
                &&& final(api).same_but_devices(old(api))
                &&& capture_taken(old(api).devices@, final(api).devices@, self@)
            },
    {
        self.get_capture(api, WAIT_INFINITE)
    }

    /// The serial number.
    pub fn get_serialnum(&self, api: &Api) -> (r: Result<String, Error>)
        requires
            api.wf(),
        ensures
            chars_view(r) == fetched_text(api, Blob::SerialNumber(self@)),
    {
        fetch_text(api, &Blob::SerialNumber(self.handle))
    }

    /// The factory calibration blob.
    pub fn get_raw_calibration(&self, api: &Api) -> (r: Result<Vec<u8>, Error>)
        requires
            api.wf(),
        ensures
            bytes_view(r) == fetched(api, Blob::RawCalibration(self@)),
    {
        fetch_bytes(api, &Blob::RawCalibration(self.handle))
    }

    /// The calibration for a depth mode and a color resolution.
    pub fn get_calibration(&self, api: &Api, depth_mode: DepthMode, color_resolution: ColorResolution) -> (r: Result<Calibration, Error>)
        requires
            api.wf(),
        ensures
            api.device_is_open(self@) ==> r == Ok::<Calibration, Error>(Calibration { depth_mode, color_resolution }),
            !api.device_is_open(self@) ==> r == Err::<Calibration, Error>(Error::Failed),
    {
        let (status, calibration) = api.device_get_calibration(self.handle, depth_mode, color_resolution);
        status.to_result(calibration)
    }

    /// Whether cables are plugged into the sync-in and sync-out jacks.
    pub fn is_sync_connected(&self, api: &Api) -> (r: Result<(bool, bool), Error>)
        requires
            api.wf(),
        ensures
            api.device_is_open(self@) ==> r == Ok::<(bool, bool), Error>((
                api.devices@[self@ - 1].sync_in_connected,
                api.devices@[self@ - 1].sync_out_connected,
            )),
            !api.device_is_open(self@) ==> r == Err::<(bool, bool), Error>(Error::Failed),
    {
        let (status, sync_in, sync_out) = api.device_sync_jack(self.handle);
        status.to_result((sync_in, sync_out))
    }

    /// Whether a cable is plugged into the sync-in jack.
    pub fn is_sync_in_connected(&self, api: &Api) -> (r: Result<bool, Error>)
        requires
            api.wf(),
        ensures
            api.device_is_open(self@) ==> r == Ok::<bool, Error>(api.devices@[self@ - 1].sync_in_connected),
            !api.device_is_open(self@) ==> r == Err::<bool, Error>(Error::Failed),
    {
        match self.is_sync_connected(api) {
            Ok(jacks) => Ok(jacks.0),
            Err(e) => Err(e),
        }
    }

    /// Whether a cable is plugged into the sync-out jack.
    pub fn is_sync_out_connected(&self, api: &Api) -> (r: Result<bool, Error>)
        requires
            api.wf(),
        ensures
            api.device_is_open(self@) ==> r == Ok::<bool, Error>(api.devices@[self@ - 1].sync_out_connected),
            !api.device_is_open(self@) ==> r == Err::<bool, Error>(Error::Failed),
    {
        match self.is_sync_connected(api) {
            Ok(jacks) => Ok(jacks.1),
            Err(e) => Err(e),
        }
    }

    /// Starts the motion sensor; the cameras must be streaming.
    pub fn start_imu(&self, api: &mut Api) -> (r: Result<(), Error>)
        requires
            old(api).wf(),
        ensures
            final(api).wf(),
            final(api).same_but_devices(old(api)),
            if old(api).device_is_open(self@) && old(api).devices@[self@ - 1].cameras_running
                && !old(api).devices@[self@ - 1].imu_running {
                &&& r is Ok
                &&& final(api).devices@ == old(api).devices@.update(
                    self@ - 1,
                    DeviceSlot { imu_running: true, ..old(api).devices@[self@ - 1] },
                )
            } else {
                &&& r matches Err(e) && e == Error::Failed
                &&& final(api).devices == old(api).devices
            },
    {
        let status = api.device_start_imu(self.handle);
        status.to_result(())
    }

    /// The mode and value of a color setting.
    pub fn get_color_control(&self, api: &Api, command: ColorControlCommand) -> (r: Result<(ColorControlMode, i32), Error>)
        requires
            api.wf(),
        ensures
            api.control_of(self@, command) matches Some(s) ==> r == Ok::<(ColorControlMode, i32), Error>((s.mode, s.value)),
            api.control_of(self@, command) is None ==> r == Err::<(ColorControlMode, i32), Error>(Error::Failed),
    {
        let (status, mode, value) = api.device_get_color_control(self.handle, command);
        status.to_result((mode, value))
    }

    /// Sets a color setting to `mode`, and in manual mode to `value`; fails
    /// where the device does not offer the setting or it does not accept
    /// them.
    pub fn set_color_control(&self, api: &mut Api, command: ColorControlCommand, mode: ColorControlMode, value: i32) -> (r: Result<(), Error>)
        requires
            old(api).wf(),
        ensures
            final(api).wf(),
            final(api).same_but_devices(old(api)),
            if old(api).control_accepts(self@, command, mode, value) {
                let cs = old(api).devices@[self@ - 1].color_controls@;
                let s = old(api).control_of(self@, command)->Some_0;
                &&& r is Ok
                &&& controls_replaced(old(api).devices@, final(api).devices@, self@ - 1,
                    cs.update(control_position(cs, command), applied(s, mode, value)))
            } else {
                &&& r matches Err(e) && e == Error::Failed
                &&& final(api).devices == old(api).devices
            },
    {
        api.device_set_color_control(self.handle, command, mode, value).to_result(())
    }

    /// What a color setting accepts.
    pub fn get_color_control_capabilities(&self, api: &Api, command: ColorControlCommand) -> (r: Result<ColorControlCapabilities, Error>)
        requires
            api.wf(),
        ensures
            api.control_of(self@, command) matches Some(s) ==> r == Ok::<ColorControlCapabilities, Error>(s.capabilities),
            api.control_of(self@, command) is None ==> r == Err::<ColorControlCapabilities, Error>(Error::Failed),
    {
        let (status, capabilities) = api.device_get_color_control_capabilities(self.handle, command);
        status.to_result(capabilities)
    }

    /// The firmware versions of the device's subsystems.
    pub fn get_version(&self, api: &Api) -> (r: Result<HardwareVersion, Error>)
        requires
            api.wf(),
        ensures
            ({
                let v = if api.device_is_open(self@) { api.devices@[self@ - 1].version } else { None };
                &&& v matches Some(x) ==> r == Ok::<HardwareVersion, Error>(x)
                &&& v is None ==> r == Err::<HardwareVersion, Error>(Error::Failed)
            }),
    {
        match api.device_get_version(self.handle) {
            Some(v) => Ok(v),
            None => Err(Error::Failed),
        }
    }
}

} // verus!
