use azure_kinect::capture::Capture;
use azure_kinect::config::ImageFormat;
use azure_kinect::image::Image;
use azure_kinect::refcount::NULL_HANDLE;
use azure_kinect::runtime::Api;

fn capture_count(api: &Api, h: usize) -> u64 {
    api.capture_refs[h - 1]
}

fn image_count(api: &Api, h: usize) -> u64 {
    api.image_refs[h - 1]
}

#[test]
fn new_capture_has_one_owner_and_no_images() {
    let mut api = Api::new();
    let c = Capture::new(&mut api).unwrap();
    assert_eq!(c.handle(), 1);
    assert_eq!(capture_count(&api, c.handle()), 1);
    assert!(c.get_color_image(&mut api).is_none());
    assert!(c.get_depth_image(&mut api).is_none());
    assert!(c.get_ir_image(&mut api).is_none());
    assert!(api.image_refs.is_empty());
}

#[test]
fn released_image_reads_as_empty() {
    let mut api = Api::new();
    let mut img = Image::with_format(&mut api, ImageFormat::Depth16, 4, 2, 0).unwrap();
    img.release(&mut api);
    assert_eq!(img.handle(), NULL_HANDLE);
    assert_eq!(img.get_width_pixels(&api), 0);
    assert_eq!(img.get_size(&api), 0);
    assert_eq!(img.get_format(&api), ImageFormat::Custom);
    assert!(img.get_buffer(&api).is_empty());
}

#[test]
fn clones_and_drops_balance_the_count() {
    let mut api = Api::new();
    let mut first = Capture::new(&mut api).unwrap();
    let h = first.handle();
    let mut clones = Vec::new();
    for _ in 0..5 {
        clones.push(first.share(&mut api));
    }
    assert_eq!(capture_count(&api, h), 6);
    for _ in 0..3 {
        let mut c = clones.pop().unwrap();
        c.release(&mut api);
    }
    assert_eq!(capture_count(&api, h), 3);
    first.release(&mut api);
    assert_eq!(capture_count(&api, h), 2);
    for mut c in clones {
        c.release(&mut api);
    }
    assert_eq!(capture_count(&api, h), 0);
}

#[test]
fn second_release_is_a_no_op() {
    let mut api = Api::new();
    let mut c = Capture::new(&mut api).unwrap();
    let other = Capture::new(&mut api).unwrap();
    let h = c.handle();
    c.release(&mut api);
    assert_eq!(c.handle(), NULL_HANDLE);
    assert_eq!(capture_count(&api, h), 0);
    c.release(&mut api);
    assert_eq!(capture_count(&api, h), 0);
    assert_eq!(capture_count(&api, other.handle()), 1);

    let mut img = Image::with_format(&mut api, ImageFormat::Depth16, 4, 2, 0).unwrap();
    let ih = img.handle();
    let mut twin = img.share(&mut api);
    assert_eq!(image_count(&api, ih), 2);
    img.release(&mut api);
    img.release(&mut api);
    assert_eq!(image_count(&api, ih), 1);
    twin.release(&mut api);
    assert_eq!(image_count(&api, ih), 0);
}

#[test]
fn capture_holds_its_own_reference_to_an_image() {
    let mut api = Api::new();
    let mut c = Capture::new(&mut api).unwrap();
    let img = Image::with_format(&mut api, ImageFormat::ColorBgra32, 8, 4, 0).unwrap();
    let ih = img.handle();
    c.set_color_image(&mut api, img);
    assert_eq!(image_count(&api, ih), 1);
    let mut got = c.get_color_image(&mut api).unwrap();
    assert_eq!(got.handle(), ih);
    assert_eq!(image_count(&api, ih), 2);
    assert_eq!(got.get_width_pixels(&api), 8);
    assert_eq!(got.get_stride_bytes(&api), 32);
    got.release(&mut api);
    c.release(&mut api);
    assert_eq!(image_count(&api, ih), 0);
}

#[test]
fn replacing_an_image_lets_go_of_the_old_one() {
    let mut api = Api::new();
    let mut c = Capture::new(&mut api).unwrap();
    let a = Image::with_format(&mut api, ImageFormat::Depth16, 2, 2, 0).unwrap();
    let b = Image::with_format(&mut api, ImageFormat::Depth16, 2, 2, 0).unwrap();
    let (ha, hb) = (a.handle(), b.handle());
    c.set_depth_image(&mut api, a);
    c.set_depth_image(&mut api, b);
    assert_eq!(image_count(&api, ha), 0);
    assert_eq!(image_count(&api, hb), 1);
    let ir = Image::with_format(&mut api, ImageFormat::Ir16, 2, 2, 0).unwrap();
    let hi = ir.handle();
    c.set_ir_image(&mut api, ir);
    let mut got = c.get_ir_image(&mut api).unwrap();
    assert_eq!(got.handle(), hi);
    got.release(&mut api);
    let mut depth = c.get_depth_image(&mut api).unwrap();
    assert_eq!(depth.handle(), hb);
    depth.release(&mut api);
}

#[test]
fn image_shapes_and_sizes() {
    let mut api = Api::new();
    let bgra = Image::with_format(&mut api, ImageFormat::ColorBgra32, 1280, 720, 0).unwrap();
    assert_eq!(bgra.get_stride_bytes(&api), 5120);
    assert_eq!(bgra.get_size(&api), 5120 * 720);
    assert_eq!(bgra.get_height_pixels(&api), 720);
    assert_eq!(bgra.get_format(&api), ImageFormat::ColorBgra32);

    let nv12 = Image::with_format(&mut api, ImageFormat::ColorNv12, 4, 4, 0).unwrap();
    assert_eq!(nv12.get_stride_bytes(&api), 4);
    assert_eq!(nv12.get_size(&api), 24);

    let padded = Image::with_format(&mut api, ImageFormat::Custom8, 3, 2, 8).unwrap();
    assert_eq!(padded.get_stride_bytes(&api), 8);
    assert_eq!(padded.get_size(&api), 16);
    assert!(padded.get_buffer(&api).iter().all(|b| *b == 0));
}

#[test]
fn image_creation_failures() {
    let mut api = Api::new();
    assert!(Image::with_format(&mut api, ImageFormat::ColorMjpg, 4, 4, 0).is_err());
    assert!(Image::with_format(&mut api, ImageFormat::Custom, 4, 4, 0).is_err());
    assert!(Image::with_format(&mut api, ImageFormat::Depth16, 0, 4, 0).is_err());
    assert!(Image::with_format(&mut api, ImageFormat::Depth16, 4, -1, 0).is_err());
    assert!(Image::with_format(&mut api, ImageFormat::Depth16, 4, 4, -2).is_err());
    assert!(Image::with_buffer(&mut api, ImageFormat::ColorMjpg, 4, 4, 0, Vec::new()).is_err());
    assert_eq!(api.image_refs.len(), 0);
}

#[test]
fn image_over_a_callers_buffer() {
    let mut api = Api::new();
    let mut img = Image::with_buffer(&mut api, ImageFormat::ColorMjpg, 2, 2, 0, vec![1, 2, 3]).unwrap();
    assert_eq!(img.get_buffer(&api), &[1u8, 2, 3][..]);
    assert_eq!(img.get_size(&api), 3);
    {
        let pixels = img.get_mut_buffer(&mut api);
        pixels[1] = 9;
    }
    assert_eq!(img.get_buffer(&api), &[1u8, 9, 3][..]);
}

#[test]
fn image_metadata_round_trips() {
    let mut api = Api::new();
    let img = Image::with_format(&mut api, ImageFormat::ColorYuy2, 2, 2, 0).unwrap();
    assert_eq!(img.get_stride_bytes(&api), 4);
    img.set_device_timestamp_usec(&mut api, 11);
    img.set_system_timestamp_nsec(&mut api, 22);
    img.set_exposure_usec(&mut api, 33);
    img.set_white_balance(&mut api, 4500);
    img.set_iso_speed(&mut api, 800);
    assert_eq!(img.get_device_timestamp_usec(&api), 11);
    assert_eq!(img.get_system_timestamp_nsec(&api), 22);
    assert_eq!(img.get_exposure_usec(&api), 33);
    assert_eq!(img.get_white_balance(&api), 4500);
    assert_eq!(img.get_iso_speed(&api), 800);
}
