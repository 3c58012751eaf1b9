use azure_kinect::device::Device;
use azure_kinect::error::{Error, Status};
use azure_kinect::fetch::{fetch_bytes, fetch_text};
use azure_kinect::runtime::blobs::Blob;
use azure_kinect::runtime::Api;

#[test]
fn raw_calibration_comes_back_unmodified() {
    let mut api = Api::new();
    let blob: Vec<u8> = (0..=255u8).collect();
    api.install_device(b"A1".to_vec(), blob.clone(), false, false);
    let d = Device::new(&mut api, 0).unwrap();
    assert_eq!(d.get_raw_calibration(&api), Ok(blob.clone()));
    assert_eq!(fetch_bytes(&api, &Blob::RawCalibration(d.handle())), Ok(blob));
}

#[test]
fn probe_reports_size_then_fill_succeeds() {
    let mut api = Api::new();
    api.install_device(b"XY".to_vec(), vec![5, 6], false, false);
    let d = Device::new(&mut api, 0).unwrap();
    let probe = api.read_blob(&Blob::SerialNumber(d.handle()), 0);
    assert_eq!(probe.status, Status::BufferTooSmall);
    assert_eq!(probe.size, 3);
    let fill = api.read_blob(&Blob::SerialNumber(d.handle()), 3);
    assert_eq!(fill.status, Status::Succeeded);
    assert_eq!(fill.data, b"XY\0".to_vec());
}

#[test]
fn serial_number_is_text_without_its_terminator() {
    let mut api = Api::new();
    api.install_device(b"000261594512".to_vec(), vec![1], false, false);
    let d = Device::new(&mut api, 0).unwrap();
    assert_eq!(d.get_serialnum(&api), Ok("000261594512".to_string()));
    assert_eq!(fetch_text(&api, &Blob::SerialNumber(d.handle())), Ok("000261594512".to_string()));
}

#[test]
fn serial_number_in_utf8() {
    let mut api = Api::new();
    api.install_device("Kamera-\u{e9}".as_bytes().to_vec(), vec![1], false, false);
    let d = Device::new(&mut api, 0).unwrap();
    assert_eq!(d.get_serialnum(&api), Ok("Kamera-\u{e9}".to_string()));
}

#[test]
fn malformed_text_is_an_error() {
    let mut api = Api::new();
    api.install_device(vec![0x41, 0xff, 0xfe], vec![1], false, false);
    let d = Device::new(&mut api, 0).unwrap();
    assert_eq!(d.get_serialnum(&api), Err(Error::InvalidUtf8));
}

#[test]
fn empty_output_fails_the_probe() {
    let mut api = Api::new();
    api.install_device(Vec::new(), Vec::new(), false, false);
    let mut d = Device::new(&mut api, 0).unwrap();
    assert_eq!(d.get_raw_calibration(&api), Err(Error::SizeProbeFailed));
    assert_eq!(d.get_serialnum(&api), Ok(String::new()));
    d.release(&mut api);
    assert_eq!(d.get_serialnum(&api), Err(Error::SizeProbeFailed));
    assert_eq!(fetch_bytes(&api, &Blob::RawCalibration(1)), Err(Error::SizeProbeFailed));
}
