use azure_kinect::config::{ColorResolution, DepthMode, DeviceConfiguration, Fps, ImageFormat, WiredSyncMode};
use azure_kinect::device::Device;
use azure_kinect::error::Error;
use azure_kinect::playback::Playback;
use azure_kinect::record::Record;
use azure_kinect::runtime::{Api, SubtitleSettings, VideoSettings};

fn session(config: &DeviceConfiguration) -> Api {
    let mut api = Api::new();
    api.install_device(b"T1".to_vec(), vec![1, 2], false, false);
    let device = Device::new(&mut api, 0).unwrap();
    let mut rec = Record::new(&mut api, "tracks.mkv", &device, config).unwrap();
    rec.add_imu_track(&mut api).unwrap();
    let video = VideoSettings { width: 64, height: 48, frame_rate: 10 };
    rec.add_custom_video_track(&mut api, "THERMAL", "V_MS/VFW/FOURCC", &[1, 2, 3], &video).unwrap();
    rec.add_custom_subtitle_track(&mut api, "NOTES", "S_TEXT/UTF8", &[], &SubtitleSettings { high_freq_data: true }).unwrap();
    assert_eq!(
        rec.add_custom_video_track(&mut api, "THERMAL", "V_X", &[], &video).err(),
        Some(Error::Failed)
    );
    assert_eq!(
        rec.add_custom_subtitle_track(&mut api, "DEPTH", "S_X", &[], &SubtitleSettings { high_freq_data: false }).err(),
        Some(Error::Failed)
    );
    assert_eq!(rec.write_custom_track_data(&mut api, "NOTES", 5, b"early").err(), Some(Error::Failed));
    rec.write_header(&mut api).unwrap();
    assert_eq!(
        rec.add_custom_video_track(&mut api, "LATE", "V_X", &[], &video).err(),
        Some(Error::Failed)
    );
    rec.write_custom_track_data(&mut api, "NOTES", 5, b"hello").unwrap();
    assert_eq!(rec.write_custom_track_data(&mut api, "MISSING", 5, b"x").err(), Some(Error::Failed));
    rec.release(&mut api);
    api
}

#[test]
fn tracks_are_listed_builtin_first() {
    let config = DeviceConfiguration::default();
    let mut api = session(&config);
    let playback = Playback::playback_open(&mut api, "tracks.mkv").unwrap();
    assert_eq!(playback.get_track_count(&api), 6);
    let names: Vec<String> = (0..6).map(|i| playback.get_track(&api, i).unwrap().get_name().to_string()).collect();
    assert_eq!(names, vec!["COLOR", "DEPTH", "IR", "IMU", "THERMAL", "NOTES"]);
    assert_eq!(playback.get_track(&api, 6).err(), Some(Error::SizeProbeFailed));
    let notes = &api.recordings[0].custom_tracks[1].1;
    assert_eq!(notes.blocks, vec![(5u64, b"hello".to_vec())]);
}

#[test]
fn builtin_and_custom_track_details() {
    let config = DeviceConfiguration::default();
    let mut api = session(&config);
    let playback = Playback::playback_open(&mut api, "tracks.mkv").unwrap();
    let color = playback.get_track(&api, 0).unwrap();
    assert!(color.check_exists(&api));
    assert!(color.is_builtin(&api));
    assert_eq!(color.get_video_settings(&api), Ok(VideoSettings { width: 1280, height: 720, frame_rate: 30 }));
    assert_eq!(color.get_codec_id(&api).err(), Some(Error::SizeProbeFailed));
    let depth = playback.get_track(&api, 1).unwrap();
    assert_eq!(depth.get_video_settings(&api), Ok(VideoSettings { width: 320, height: 288, frame_rate: 30 }));
    let imu = playback.get_track(&api, 3).unwrap();
    assert!(imu.is_builtin(&api));
    assert_eq!(imu.get_video_settings(&api).err(), Some(Error::Failed));

    let thermal = playback.get_track(&api, 4).unwrap();
    assert!(thermal.check_exists(&api));
    assert!(!thermal.is_builtin(&api));
    assert_eq!(thermal.get_codec_id(&api), Ok("V_MS/VFW/FOURCC".to_string()));
    assert_eq!(thermal.get_codec_context(&api), Ok(vec![1, 2, 3]));
    assert_eq!(thermal.get_video_settings(&api), Ok(VideoSettings { width: 64, height: 48, frame_rate: 10 }));
    let notes = playback.get_track(&api, 5).unwrap();
    assert_eq!(notes.get_codec_id(&api), Ok("S_TEXT/UTF8".to_string()));
    assert_eq!(notes.get_codec_context(&api).err(), Some(Error::SizeProbeFailed));
    assert_eq!(notes.get_video_settings(&api).err(), Some(Error::Failed));
}

#[test]
fn passive_ir_recording_has_no_depth_track() {
    let config = DeviceConfiguration {
        color_resolution: ColorResolution::Off,
        depth_mode: DepthMode::PassiveIr,
        camera_fps: Fps::Fps15,
        ..DeviceConfiguration::default()
    };
    let mut api = session(&config);
    let playback = Playback::playback_open(&mut api, "tracks.mkv").unwrap();
    assert_eq!(playback.get_track_count(&api), 4);
    let ir = playback.get_track(&api, 0).unwrap();
    assert_eq!(ir.get_name(), "IR");
    assert_eq!(ir.get_video_settings(&api), Ok(VideoSettings { width: 1024, height: 1024, frame_rate: 15 }));
    let missing = azure_kinect::playback_track::PlaybackTrack::new(playback.handle(), "COLOR".to_string());
    assert!(!missing.check_exists(&api));
    assert!(!missing.is_builtin(&api));
    let c = playback.get_record_configuration(&api).unwrap();
    assert_eq!(c.color_format, ImageFormat::ColorBgra32);
    assert_eq!(c.depth_mode, DepthMode::PassiveIr);
    assert_eq!(c.camera_fps, Fps::Fps15);
    assert!(!c.color_track_enabled);
    assert!(!c.depth_track_enabled);
    assert!(c.ir_track_enabled);
    assert!(c.imu_track_enabled);
    assert_eq!(c.wired_sync_mode, WiredSyncMode::Standalone);
    assert_eq!(c.start_timestamp_offset_usec, 0);
}

#[test]
fn record_configuration_needs_an_open_playback() {
    let config = DeviceConfiguration::default();
    let mut api = session(&config);
    let mut playback = Playback::playback_open(&mut api, "tracks.mkv").unwrap();
    playback.release(&mut api);
    assert_eq!(playback.get_record_configuration(&api).err(), Some(Error::Failed));
    assert_eq!(playback.get_track(&api, 0).err(), Some(Error::SizeProbeFailed));
}

#[test]
fn data_blocks_read_forward_and_back() {
    let mut api = Api::new();
    api.install_device(b"T2".to_vec(), vec![1], false, false);
    let device = Device::new(&mut api, 0).unwrap();
    let config = DeviceConfiguration::default();
    let mut rec = Record::new(&mut api, "blocks.mkv", &device, &config).unwrap();
    rec.add_custom_subtitle_track(&mut api, "EVENTS", "S_TEXT/UTF8", &[], &SubtitleSettings { high_freq_data: false }).unwrap();
    rec.write_header(&mut api).unwrap();
    rec.write_custom_track_data(&mut api, "EVENTS", 10, b"a").unwrap();
    rec.write_custom_track_data(&mut api, "EVENTS", 20, b"bb").unwrap();
    rec.release(&mut api);

    let playback = Playback::playback_open(&mut api, "blocks.mkv").unwrap();
    assert_eq!(playback.get_previous_data_block(&mut api, "EVENTS").err(), Some(Error::Eof));
    let first = playback.get_next_data_block(&mut api, "EVENTS").unwrap();
    assert_eq!(first.get_device_timestamp_usec(), 10);
    assert_eq!(first.get_buffer(), b"a");
    let second = playback.get_next_data_block(&mut api, "EVENTS").unwrap();
    assert_eq!(second.get_device_timestamp_usec(), 20);
    assert_eq!(second.get_buffer_size(), 2);
    assert_eq!(playback.get_next_data_block(&mut api, "EVENTS").err(), Some(Error::Eof));
    let back = playback.get_previous_data_block(&mut api, "EVENTS").unwrap();
    assert_eq!(back.get_buffer(), b"bb");
    assert_eq!(playback.get_next_data_block(&mut api, "COLOR").err(), Some(Error::Failed));
    assert_eq!(playback.get_next_data_block(&mut api, "OTHER").err(), Some(Error::Failed));
}
