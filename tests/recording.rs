use azure_kinect::capture::Capture;
use azure_kinect::config::{Calibration, ColorResolution, DepthMode, DeviceConfiguration, ImageFormat};
use azure_kinect::device::Device;
use azure_kinect::error::Error;
use azure_kinect::image::Image;
use azure_kinect::playback::Playback;
use azure_kinect::record::Record;
use azure_kinect::runtime::recording::SeekOrigin;
use azure_kinect::runtime::Api;

fn capture_at(api: &mut Api, usec: u64) -> Capture {
    let mut c = Capture::new(api).unwrap();
    let depth = Image::with_format(api, ImageFormat::Depth16, 2, 2, 0).unwrap();
    depth.set_device_timestamp_usec(api, usec);
    c.set_depth_image(api, depth);
    c
}

/// Records three captures at 100, 200 and 300 microseconds; returns the
/// runtime and the capture handles.
fn recorded_session() -> (Api, Vec<usize>) {
    let mut api = Api::new();
    api.install_device(b"S1".to_vec(), vec![4, 5, 6], false, false);
    let mut device = Device::new(&mut api, 0).unwrap();
    let config = DeviceConfiguration::default();
    device.start_cameras(&mut api, &config).unwrap();
    let mut rec = Record::new(&mut api, "take.mkv", &device, &config).unwrap();
    rec.add_imu_track(&mut api).unwrap();
    rec.write_header(&mut api).unwrap();
    let mut handles = Vec::new();
    for t in [100u64, 200, 300] {
        let mut c = capture_at(&mut api, t);
        rec.write_capture(&mut api, &c).unwrap();
        handles.push(c.handle());
        c.release(&mut api);
    }
    rec.flush(&api).unwrap();
    rec.release(&mut api);
    device.release(&mut api);
    (api, handles)
}

#[test]
fn recorder_follows_the_write_order() {
    let mut api = Api::new();
    api.install_device(b"S1".to_vec(), vec![1], false, false);
    let device = Device::new(&mut api, 0).unwrap();
    let config = DeviceConfiguration::default();
    let mut rec = Record::new(&mut api, "a.mkv", &device, &config).unwrap();
    let c = Capture::new(&mut api).unwrap();
    assert_eq!(rec.write_capture(&mut api, &c).err(), Some(Error::Failed));
    rec.write_header(&mut api).unwrap();
    assert_eq!(rec.write_header(&mut api).err(), Some(Error::Failed));
    assert_eq!(rec.add_imu_track(&mut api).err(), Some(Error::Failed));
    rec.write_capture(&mut api, &c).unwrap();
    assert_eq!(api.capture_refs[c.handle() - 1], 2);
    rec.release(&mut api);
    assert_eq!(rec.flush(&api).err(), Some(Error::Failed));
    assert_eq!(rec.write_capture(&mut api, &c).err(), Some(Error::Failed));
}

#[test]
fn recording_needs_an_open_device() {
    let mut api = Api::new();
    api.install_device(b"S1".to_vec(), vec![1], false, false);
    let mut device = Device::new(&mut api, 0).unwrap();
    device.release(&mut api);
    let config = DeviceConfiguration::default();
    assert_eq!(Record::new(&mut api, "b.mkv", &device, &config).err(), Some(Error::Failed));
}

#[test]
fn playback_reads_in_order_then_eof() {
    let (mut api, handles) = recorded_session();
    let playback = Playback::playback_open(&mut api, "take.mkv").unwrap();
    assert_eq!(playback.get_track_count(&api), 4);
    assert_eq!(playback.get_recording_length_usec(&api), 300);
    assert_eq!(playback.get_raw_calibration(&api), Ok(vec![4, 5, 6]));
    assert_eq!(
        playback.get_calibration(&api),
        Ok(Calibration { depth_mode: DepthMode::NfovBinned2x2, color_resolution: ColorResolution::Res720p })
    );
    for h in &handles {
        let mut c = playback.get_next_capture(&mut api).unwrap();
        assert_eq!(c.handle(), *h);
        let mut depth = c.get_depth_image(&mut api).unwrap();
        assert!(depth.get_device_timestamp_usec(&api) > 0);
        depth.release(&mut api);
        c.release(&mut api);
    }
    assert_eq!(playback.get_next_capture(&mut api).err(), Some(Error::Eof));
    let mut last = playback.get_previous_capture(&mut api).unwrap();
    assert_eq!(last.handle(), handles[2]);
    last.release(&mut api);
    assert_eq!(api.capture_refs[handles[2] - 1], 1);
}

#[test]
fn previous_at_the_start_is_eof() {
    let (mut api, _) = recorded_session();
    let playback = Playback::playback_open(&mut api, "take.mkv").unwrap();
    assert_eq!(playback.get_previous_capture(&mut api).err(), Some(Error::Eof));
}

#[test]
fn seeking_moves_the_cursor() {
    let (mut api, handles) = recorded_session();
    let playback = Playback::playback_open(&mut api, "take.mkv").unwrap();
    playback.seek_timestamp(&mut api, 150, SeekOrigin::Begin).unwrap();
    let mut c = playback.get_next_capture(&mut api).unwrap();
    assert_eq!(c.handle(), handles[1]);
    c.release(&mut api);
    playback.seek_timestamp(&mut api, -100, SeekOrigin::End).unwrap();
    let mut c = playback.get_next_capture(&mut api).unwrap();
    assert_eq!(c.handle(), handles[1]);
    c.release(&mut api);
    playback.seek_timestamp(&mut api, 300, SeekOrigin::DeviceTime).unwrap();
    let mut c = playback.get_next_capture(&mut api).unwrap();
    assert_eq!(c.handle(), handles[2]);
    c.release(&mut api);
    assert_eq!(playback.seek_timestamp(&mut api, 301, SeekOrigin::Begin).err(), Some(Error::Failed));
    assert_eq!(playback.seek_timestamp(&mut api, -1, SeekOrigin::Begin).err(), Some(Error::Failed));
    assert_eq!(playback.seek_timestamp(&mut api, 1, SeekOrigin::End).err(), Some(Error::Failed));
    assert_eq!(playback.seek_timestamp(&mut api, i64::MIN, SeekOrigin::End).err(), Some(Error::Failed));
    playback.seek_timestamp(&mut api, 0, SeekOrigin::End).unwrap();
    let mut c = playback.get_next_capture(&mut api).unwrap();
    assert_eq!(c.handle(), handles[2]);
    c.release(&mut api);
}

#[test]
fn color_conversion_formats() {
    let (mut api, _) = recorded_session();
    let mut playback = Playback::playback_open(&mut api, "take.mkv").unwrap();
    assert_eq!(playback.set_color_conversion(&mut api, ImageFormat::ColorMjpg).err(), Some(Error::Failed));
    playback.set_color_conversion(&mut api, ImageFormat::ColorNv12).unwrap();
    assert_eq!(api.playbacks[playback.handle() - 1].color_conversion, ImageFormat::ColorNv12);
    playback.release(&mut api);
    assert_eq!(playback.set_color_conversion(&mut api, ImageFormat::ColorBgra32).err(), Some(Error::Failed));
    assert_eq!(playback.get_next_capture(&mut api).err(), Some(Error::Failed));
    assert_eq!(playback.get_track_count(&api), 0);
    assert_eq!(playback.get_raw_calibration(&api), Err(Error::SizeProbeFailed));
}

#[test]
fn playback_needs_a_finished_recording() {
    let mut api = Api::new();
    assert_eq!(Playback::playback_open(&mut api, "none.mkv").err(), Some(Error::Failed));
    api.install_device(b"S1".to_vec(), vec![1], false, false);
    let device = Device::new(&mut api, 0).unwrap();
    let config = DeviceConfiguration { depth_mode: DepthMode::PassiveIr, color_resolution: ColorResolution::Off, ..DeviceConfiguration::default() };
    let mut rec = Record::new(&mut api, "live.mkv", &device, &config).unwrap();
    assert_eq!(Playback::playback_open(&mut api, "live.mkv").err(), Some(Error::Failed));
    rec.release(&mut api);
    let playback = Playback::playback_open(&mut api, "live.mkv").unwrap();
    assert_eq!(playback.get_track_count(&api), 1);
    assert_eq!(playback.get_recording_length_usec(&api), 0);
    assert_eq!(playback.get_next_capture(&mut api).err(), Some(Error::Eof));
}

#[test]
fn tags_and_attachments_round_trip() {
    let mut api = Api::new();
    api.install_device(b"S1".to_vec(), vec![1], false, false);
    let device = Device::new(&mut api, 0).unwrap();
    let config = DeviceConfiguration::default();
    let mut rec = Record::new(&mut api, "meta.mkv", &device, &config).unwrap();
    rec.add_tag(&mut api, "SCENE", "kitchen").unwrap();
    rec.add_tag(&mut api, "SCENE", "hall").unwrap();
    rec.add_tag(&mut api, "EMPTY", "").unwrap();
    rec.add_attachment(&mut api, "notes.bin", &[9, 8, 7]).unwrap();
    rec.write_header(&mut api).unwrap();
    assert_eq!(rec.add_tag(&mut api, "LATE", "x").err(), Some(Error::Failed));
    assert_eq!(rec.add_attachment(&mut api, "late.bin", &[1]).err(), Some(Error::Failed));
    rec.release(&mut api);

    let playback = Playback::playback_open(&mut api, "meta.mkv").unwrap();
    assert_eq!(playback.get_tag(&api, "SCENE"), Ok("hall".to_string()));
    assert_eq!(playback.get_tag(&api, "EMPTY"), Ok(String::new()));
    assert_eq!(playback.get_tag(&api, "MISSING"), Err(Error::SizeProbeFailed));
    assert_eq!(playback.get_attachment(&api, "notes.bin"), Ok(vec![9, 8, 7]));
    assert_eq!(playback.get_attachment(&api, "other.bin"), Err(Error::SizeProbeFailed));
}
