use azure_kinect::body::{Body, ConfidenceLevel, Joint, Position, Skeleton, INVALID_BODY_ID, JOINT_COUNT};
use azure_kinect::capture::Capture;
use azure_kinect::config::{
    Calibration, ColorResolution, FirmwareBuild, FirmwareSignature, HardwareVersion, Version, DepthMode, DeviceConfiguration, Fps, ImageFormat, ProcessingMode,
    SensorOrientation, TrackerConfiguration, WiredSyncMode,
};
use azure_kinect::device::{Device, WAIT_INFINITE};
use azure_kinect::error::{Error, Status};
use azure_kinect::image::Image;
use azure_kinect::runtime::Api;
use azure_kinect::tracker::Tracker;

fn one_device() -> Api {
    let mut api = Api::new();
    api.install_device(b"000123".to_vec(), vec![7, 8, 9], true, false);
    api
}

fn body(id: u32, x: i32) -> Body {
    let mut joints = [Joint::default(); JOINT_COUNT];
    joints[0] = Joint { position: Position { x, y: 2, z: 3 }, confidence_level: ConfidenceLevel::High };
    Body { id, skeleton: Skeleton { joints } }
}

#[test]
fn default_configuration_is_the_documented_one() {
    let c = DeviceConfiguration::default();
    assert_eq!(c.color_format, ImageFormat::ColorBgra32);
    assert_eq!(c.color_resolution, ColorResolution::Res720p);
    assert_eq!(c.depth_mode, DepthMode::NfovBinned2x2);
    assert_eq!(c.camera_fps, Fps::Fps30);
    assert!(!c.synchronized_images_only);
    assert_eq!(c.depth_delay_off_color_usec, 0);
    assert_eq!(c.wired_sync_mode, WiredSyncMode::Standalone);
    assert_eq!(c.subordinate_delay_off_master_usec, 0);
    assert!(!c.disable_streaming_indicator);
    let t = TrackerConfiguration::default();
    assert_eq!(t.sensor_orientation, SensorOrientation::Default);
    assert_eq!(t.processing_mode, ProcessingMode::Gpu);
    assert_eq!(t.gpu_device_id, 0);
}

#[test]
fn open_index_zero_then_one() {
    let mut api = one_device();
    let d = Device::new(&mut api, 0);
    assert!(d.is_ok());
    assert_eq!(d.unwrap().handle(), 1);
    assert!(api.devices[0].open);
    assert_eq!(Device::new(&mut api, 1).err(), Some(Error::Failed));
}

#[test]
fn a_device_cannot_be_opened_twice() {
    let mut api = one_device();
    let mut d = Device::new(&mut api, 0).unwrap();
    assert_eq!(Device::new(&mut api, 0).err(), Some(Error::Failed));
    d.release(&mut api);
    assert!(!api.devices[0].open);
    assert!(Device::new(&mut api, 0).is_ok());
}

#[test]
fn empty_queue_times_out_without_a_wrapper() {
    let mut api = one_device();
    let d = Device::new(&mut api, 0).unwrap();
    d.start_cameras(&mut api, &DeviceConfiguration::default()).unwrap();
    let r = d.get_capture(&mut api, 0);
    assert_eq!(r.err(), Some(Error::Timeout));
    assert!(api.capture_refs.is_empty());
    assert!(api.image_refs.is_empty());
    assert_eq!(d.get_capture_wait_infinite(&mut api).err(), Some(Error::Timeout));
}

#[test]
fn reading_before_start_fails() {
    let mut api = one_device();
    let d = Device::new(&mut api, 0).unwrap();
    assert_eq!(d.get_capture(&mut api, 100).err(), Some(Error::Failed));
    assert!(api.capture_refs.is_empty());
}

#[test]
fn captures_come_out_in_order() {
    let mut api = one_device();
    let d = Device::new(&mut api, 0).unwrap();
    d.start_cameras(&mut api, &DeviceConfiguration::default()).unwrap();
    let mut a = Capture::new(&mut api).unwrap();
    let mut b = Capture::new(&mut api).unwrap();
    assert_eq!(api.queue_capture(0, a.handle()), Status::Succeeded);
    assert_eq!(api.queue_capture(0, b.handle()), Status::Succeeded);
    let (ha, hb) = (a.handle(), b.handle());
    a.release(&mut api);
    b.release(&mut api);
    assert_eq!(api.capture_refs[ha - 1], 1);
    let mut first = d.get_capture(&mut api, 0).unwrap();
    let mut second = d.get_capture(&mut api, 0).unwrap();
    assert_eq!(first.handle(), ha);
    assert_eq!(second.handle(), hb);
    assert_eq!(d.get_capture(&mut api, 0).err(), Some(Error::Timeout));
    first.release(&mut api);
    second.release(&mut api);
    assert_eq!(api.capture_refs[ha - 1], 0);
    assert_eq!(api.capture_refs[hb - 1], 0);
}

#[test]
fn unsupported_configurations_fail() {
    let mut api = one_device();
    let d = Device::new(&mut api, 0).unwrap();
    let fast_4k = DeviceConfiguration { color_resolution: ColorResolution::Res3072p, ..DeviceConfiguration::default() };
    assert_eq!(d.start_cameras(&mut api, &fast_4k).err(), Some(Error::Failed));
    let wide = DeviceConfiguration { depth_mode: DepthMode::WfovUnbinned, ..DeviceConfiguration::default() };
    assert_eq!(d.start_cameras(&mut api, &wide).err(), Some(Error::Failed));
    let dark = DeviceConfiguration {
        color_resolution: ColorResolution::Off,
        depth_mode: DepthMode::Off,
        ..DeviceConfiguration::default()
    };
    assert_eq!(d.start_cameras(&mut api, &dark).err(), Some(Error::Failed));
    let slow_wide = DeviceConfiguration { depth_mode: DepthMode::WfovUnbinned, camera_fps: Fps::Fps15, ..DeviceConfiguration::default() };
    assert!(d.start_cameras(&mut api, &slow_wide).is_ok());
    assert_eq!(d.start_cameras(&mut api, &slow_wide).err(), Some(Error::Failed));
}

#[test]
fn motion_sensor_needs_running_cameras() {
    let mut api = one_device();
    let d = Device::new(&mut api, 0).unwrap();
    assert_eq!(d.start_imu(&mut api).err(), Some(Error::Failed));
    d.start_cameras(&mut api, &DeviceConfiguration::default()).unwrap();
    assert!(d.start_imu(&mut api).is_ok());
    assert_eq!(d.start_imu(&mut api).err(), Some(Error::Failed));
    d.stop_cameras(&mut api);
    assert!(!api.devices[0].cameras_running);
    assert!(!api.devices[0].imu_running);
}

#[test]
fn sync_jacks_and_calibration() {
    let mut api = one_device();
    let mut d = Device::new(&mut api, 0).unwrap();
    assert_eq!(d.is_sync_connected(&api), Ok((true, false)));
    assert_eq!(d.is_sync_in_connected(&api), Ok(true));
    assert_eq!(d.is_sync_out_connected(&api), Ok(false));
    let cal = d.get_calibration(&api, DepthMode::NfovUnbinned, ColorResolution::Off).unwrap();
    assert_eq!(cal, Calibration { depth_mode: DepthMode::NfovUnbinned, color_resolution: ColorResolution::Off });
    d.release(&mut api);
    assert_eq!(d.is_sync_connected(&api), Err(Error::Failed));
    assert_eq!(d.get_calibration(&api, DepthMode::NfovUnbinned, ColorResolution::Off), Err(Error::Failed));
}

#[test]
fn tracker_result_with_two_bodies() {
    let mut api = one_device();
    let d = Device::new(&mut api, 0).unwrap();
    let config = DeviceConfiguration { depth_mode: DepthMode::NfovUnbinned, ..DeviceConfiguration::default() };
    d.start_cameras(&mut api, &config).unwrap();
    let cal = d.get_calibration(&api, config.depth_mode, ColorResolution::Off).unwrap();
    let tracker = Tracker::new(&mut api, &cal, TrackerConfiguration::default()).unwrap();
    api.queue_detection(vec![body(1, 100), body(2, 200)]);

    let mut capture = Capture::new(&mut api).unwrap();
    let depth = Image::with_format(&mut api, ImageFormat::Depth16, 4, 4, 0).unwrap();
    depth.set_device_timestamp_usec(&mut api, 5000);
    capture.set_depth_image(&mut api, depth);
    tracker.enqueue_capture(&mut api, capture.handle(), WAIT_INFINITE).unwrap();
    capture.release(&mut api);

    let mut frame = tracker.pop_result(&mut api, WAIT_INFINITE).unwrap();
    assert_eq!(tracker.get_num_bodies(&api, &frame), 2);
    assert_eq!(tracker.get_device_timestamp_usec(&api, &frame), 5000);
    let first = tracker.get_body(&api, &frame, 0).unwrap();
    let second = tracker.get_body(&api, &frame, 1).unwrap();
    assert_eq!(tracker.get_body_id(&api, &frame, 1), 2);
    assert_eq!(tracker.get_body_id(&api, &frame, 2), INVALID_BODY_ID);
    assert_eq!(tracker.get_body(&api, &frame, 2).err(), Some(Error::Failed));
    let fh = frame.handle();
    frame.release(&mut api);
    assert_eq!(api.frame_refs[fh - 1], 0);
    assert_eq!(first.id, 1);
    assert_eq!(second.id, 2);
    assert_eq!(first.skeleton.joints[0].position.x, 100);
    assert_eq!(second.skeleton.joints[0].position.x, 200);
    assert_eq!(second.skeleton.joints[0].confidence_level, ConfidenceLevel::High);
    assert_eq!(tracker.get_num_bodies(&api, &frame), 0);
    assert_eq!(tracker.get_body_skeleton(&api, &frame, 0).err(), Some(Error::Failed));
}

#[test]
fn tracker_queue_limits_and_shutdown() {
    let mut api = one_device();
    let cal = Calibration { depth_mode: DepthMode::NfovBinned2x2, color_resolution: ColorResolution::Res720p };
    let mut tracker = Tracker::new(&mut api, &cal, TrackerConfiguration::default()).unwrap();
    assert_eq!(tracker.pop_result(&mut api, 0).err(), Some(Error::Timeout));
    let c = Capture::new(&mut api).unwrap();
    for _ in 0..3 {
        tracker.enqueue_capture(&mut api, c.handle(), 0).unwrap();
    }
    assert_eq!(tracker.enqueue_capture(&mut api, c.handle(), 0).err(), Some(Error::Timeout));
    assert_eq!(tracker.enqueue_capture(&mut api, 99, 0).err(), Some(Error::Failed));
    let mut f = tracker.pop_result(&mut api, 0).unwrap();
    assert_eq!(tracker.get_num_bodies(&api, &f), 0);
    assert_eq!(tracker.get_device_timestamp_usec(&api, &f), 0);
    f.release(&mut api);
    assert_eq!(api.frame_refs, vec![0, 1, 1]);
    let th = tracker.handle();
    tracker.release(&mut api);
    assert_eq!(api.frame_refs, vec![0, 0, 0]);
    assert!(!api.trackers[th - 1].running);
    assert_eq!(tracker.pop_result(&mut api, 0).err(), Some(Error::Failed));
    assert_eq!(api.tracker_pop_result(th, 0).0, Status::Failed);
    assert_eq!(api.tracker_enqueue_capture(th, c.handle(), 0), Status::Failed);
}

#[test]
fn tracker_needs_an_active_depth_mode() {
    let mut api = Api::new();
    let passive = Calibration { depth_mode: DepthMode::PassiveIr, color_resolution: ColorResolution::Off };
    assert_eq!(Tracker::new(&mut api, &passive, TrackerConfiguration::default()).err(), Some(Error::Failed));
    let off = Calibration { depth_mode: DepthMode::Off, color_resolution: ColorResolution::Res720p };
    assert_eq!(Tracker::new(&mut api, &off, TrackerConfiguration::default()).err(), Some(Error::Failed));
    let ok = Calibration { depth_mode: DepthMode::WfovBinned2x2, color_resolution: ColorResolution::Off };
    let bad_gpu = TrackerConfiguration { gpu_device_id: -1, ..TrackerConfiguration::default() };
    assert_eq!(Tracker::new(&mut api, &ok, bad_gpu).err(), Some(Error::Failed));
    assert!(api.trackers.is_empty());
}

#[test]
fn statuses_map_to_errors() {
    assert_eq!(Status::Timeout.to_result(1), Err(Error::Timeout));
    assert_eq!(Status::Failed.to_result(1), Err(Error::Failed));
    assert_eq!(Status::Eof.to_result(1), Err(Error::Eof));
    assert_eq!(Status::BufferTooSmall.to_result(1), Err(Error::Failed));
    assert_eq!(Status::Succeeded.to_result(1), Ok(1));
}

#[test]
fn firmware_versions_are_reported_once_known() {
    let mut api = one_device();
    let d = Device::new(&mut api, 0).unwrap();
    assert_eq!(d.get_version(&api), Err(Error::Failed));
    let v = Version { major: 1, minor: 6, iteration: 110 };
    let version = HardwareVersion {
        rgb: v,
        depth: Version { major: 1, minor: 6, iteration: 79 },
        audio: v,
        depth_sensor: v,
        firmware_build: FirmwareBuild::Release,
        firmware_signature: FirmwareSignature::Msft,
    };
    assert_eq!(api.install_version(0, version), Status::Succeeded);
    assert_eq!(api.install_version(3, version), Status::Failed);
    assert_eq!(d.get_version(&api), Ok(version));
}
