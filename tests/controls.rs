use azure_kinect::config::{ColorControlCapabilities, ColorControlCommand, ColorControlMode};
use azure_kinect::device::Device;
use azure_kinect::error::{Error, Status};
use azure_kinect::runtime::Api;

fn brightness() -> ColorControlCapabilities {
    ColorControlCapabilities {
        supports_auto: false,
        min_value: 0,
        max_value: 255,
        step_value: 1,
        default_value: 128,
        default_mode: ColorControlMode::Manual,
    }
}

fn exposure() -> ColorControlCapabilities {
    ColorControlCapabilities {
        supports_auto: true,
        min_value: 500,
        max_value: 133330,
        step_value: 100,
        default_value: 33330,
        default_mode: ColorControlMode::Auto,
    }
}

fn device_with_controls() -> (Api, Device) {
    let mut api = Api::new();
    api.install_device(b"C1".to_vec(), vec![1], false, false);
    assert_eq!(api.install_color_control(0, ColorControlCommand::Brightness, brightness()), Status::Succeeded);
    assert_eq!(api.install_color_control(0, ColorControlCommand::ExposureTimeAbsolute, exposure()), Status::Succeeded);
    assert_eq!(api.install_color_control(1, ColorControlCommand::Gain, brightness()), Status::Failed);
    let d = Device::new(&mut api, 0).unwrap();
    (api, d)
}

#[test]
fn controls_start_at_their_defaults() {
    let (api, d) = device_with_controls();
    assert_eq!(d.get_color_control(&api, ColorControlCommand::Brightness), Ok((ColorControlMode::Manual, 128)));
    assert_eq!(d.get_color_control(&api, ColorControlCommand::ExposureTimeAbsolute), Ok((ColorControlMode::Auto, 33330)));
    assert_eq!(d.get_color_control_capabilities(&api, ColorControlCommand::Brightness), Ok(brightness()));
    assert_eq!(d.get_color_control(&api, ColorControlCommand::Gain), Err(Error::Failed));
    assert_eq!(d.get_color_control_capabilities(&api, ColorControlCommand::Gain).err(), Some(Error::Failed));
}

#[test]
fn manual_values_must_be_in_range() {
    let (mut api, d) = device_with_controls();
    d.set_color_control(&mut api, ColorControlCommand::Brightness, ColorControlMode::Manual, 200).unwrap();
    assert_eq!(d.get_color_control(&api, ColorControlCommand::Brightness), Ok((ColorControlMode::Manual, 200)));
    assert_eq!(
        d.set_color_control(&mut api, ColorControlCommand::Brightness, ColorControlMode::Manual, 256),
        Err(Error::Failed)
    );
    assert_eq!(
        d.set_color_control(&mut api, ColorControlCommand::Brightness, ColorControlMode::Manual, -1),
        Err(Error::Failed)
    );
    assert_eq!(d.get_color_control(&api, ColorControlCommand::Brightness), Ok((ColorControlMode::Manual, 200)));
}

#[test]
fn auto_mode_needs_support_and_keeps_the_value() {
    let (mut api, d) = device_with_controls();
    assert_eq!(
        d.set_color_control(&mut api, ColorControlCommand::Brightness, ColorControlMode::Auto, 0),
        Err(Error::Failed)
    );
    d.set_color_control(&mut api, ColorControlCommand::ExposureTimeAbsolute, ColorControlMode::Manual, 8330).unwrap();
    assert_eq!(d.get_color_control(&api, ColorControlCommand::ExposureTimeAbsolute), Ok((ColorControlMode::Manual, 8330)));
    d.set_color_control(&mut api, ColorControlCommand::ExposureTimeAbsolute, ColorControlMode::Auto, 1).unwrap();
    assert_eq!(d.get_color_control(&api, ColorControlCommand::ExposureTimeAbsolute), Ok((ColorControlMode::Auto, 8330)));
    assert_eq!(
        d.set_color_control(&mut api, ColorControlCommand::Gain, ColorControlMode::Manual, 1),
        Err(Error::Failed)
    );
}

#[test]
fn closed_devices_offer_no_controls() {
    let (mut api, mut d) = device_with_controls();
    d.release(&mut api);
    assert_eq!(d.get_color_control(&api, ColorControlCommand::Brightness), Err(Error::Failed));
    assert_eq!(api.device_get_color_control(1, ColorControlCommand::Brightness).0, Status::Failed);
    assert_eq!(ColorControlMode::default(), ColorControlMode::Auto);
}
