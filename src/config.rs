use vstd::prelude::*;

verus! {

/// Pixel layout of an image.
#[derive(Clone, Copy, Debug, PartialEq, Eq, Structural)]
pub enum ImageFormat {
    ColorMjpg,
    ColorNv12,
    ColorYuy2,
    ColorBgra32,
    Depth16,
    Ir16,
    Custom8,
    Custom16,
    Custom,
}

/// Resolution tier of the color camera.
#[derive(Clone, Copy, Debug, PartialEq, Eq, Structural)]
pub enum ColorResolution {
    Off,
    Res720p,
    Res1080p,
    Res1440p,
    Res1536p,
    Res2160p,
    Res3072p,
}

/// Operating mode of the depth camera.
#[derive(Clone, Copy, Debug, PartialEq, Eq, Structural)]
pub enum DepthMode {
    Off,
    NfovBinned2x2,
    NfovUnbinned,
    WfovBinned2x2,
    WfovUnbinned,
    PassiveIr,
}

/// Frame rate of the cameras.
#[derive(Clone, Copy, Debug, PartialEq, Eq, Structural)]
pub enum Fps {
    Fps5,
    Fps15,
    Fps30,
}

/// Role of the device on the wired synchronization cable.
#[derive(Clone, Copy, Debug, PartialEq, Eq, Structural)]
pub enum WiredSyncMode {
    Standalone,
    Master,
    Subordinate,
}

/// Settings with which the cameras are started.
#[derive(Clone, Copy, Debug, PartialEq, Eq, Structural)]
pub struct DeviceConfiguration {
    pub color_format: ImageFormat,
    pub color_resolution: ColorResolution,
    pub depth_mode: DepthMode,
    pub camera_fps: Fps,
    pub synchronized_images_only: bool,
    pub depth_delay_off_color_usec: i32,
    pub wired_sync_mode: WiredSyncMode,
    pub subordinate_delay_off_master_usec: u32,
    pub disable_streaming_indicator: bool,
}

/// The documented default: BGRA32 color at 720p, 2x2-binned narrow depth,
/// 30 frames per second, standalone, no delays, indicator on.
pub open spec fn default_configuration() -> DeviceConfiguration {
    DeviceConfiguration {
        color_format: ImageFormat::ColorBgra32,
        color_resolution: ColorResolution::Res720p,
        depth_mode: DepthMode::NfovBinned2x2,
        camera_fps: Fps::Fps30,
        synchronized_images_only: false,
        depth_delay_off_color_usec: 0,
        wired_sync_mode: WiredSyncMode::Standalone,
        subordinate_delay_off_master_usec: 0,
        disable_streaming_indicator: false,
    }
}

impl Default for DeviceConfiguration {
    fn default() -> (r: Self)
        ensures
            r == default_configuration(),
    {
        DeviceConfiguration {
            color_format: ImageFormat::ColorBgra32,
            color_resolution: ColorResolution::Res720p,
            depth_mode: DepthMode::NfovBinned2x2,
            camera_fps: Fps::Fps30,
            synchronized_images_only: false,
            depth_delay_off_color_usec: 0,
            wired_sync_mode: WiredSyncMode::Standalone,
            subordinate_delay_off_master_usec: 0,
            disable_streaming_indicator: false,
        }
    }
}

/// Whether the cameras can stream with these settings: at least one camera
/// on, and 30 frames per second only below the 3072p color tier and the
/// unbinned wide depth mode.
///
/// This is the rule the runtime model in this crate applies; the vendor
/// runtime checks settings by rules of its own, which this one only
/// approximates.
pub open spec fn configuration_supported(c: DeviceConfiguration) -> bool {
    &&& !(c.color_resolution == ColorResolution::Off && c.depth_mode == DepthMode::Off)
    &&& c.camera_fps == Fps::Fps30 ==> c.color_resolution != ColorResolution::Res3072p
    &&& c.camera_fps == Fps::Fps30 ==> c.depth_mode != DepthMode::WfovUnbinned
}

impl DeviceConfiguration {
    pub fn is_supported(&self) -> (r: bool)
        ensures
            r == configuration_supported(*self),
    {
        let both_off = self.color_resolution == ColorResolution::Off && self.depth_mode
            == DepthMode::Off;
        let too_fast = self.camera_fps == Fps::Fps30 && (self.color_resolution
            == ColorResolution::Res3072p || self.depth_mode == DepthMode::WfovUnbinned);
        !both_off && !too_fast
    }
}

/// A setting of the color camera.
#[derive(Clone, Copy, Debug, PartialEq, Eq, Structural)]
pub enum ColorControlCommand {
    ExposureTimeAbsolute,
    AutoExposurePriority,
    Brightness,
    Contrast,
    Saturation,
    Sharpness,
    Whitebalance,
    BacklightCompensation,
    Gain,
    PowerlineFrequency,
}

/// Whether a color setting is chosen by the camera or by the caller.
#[derive(Clone, Copy, Debug, PartialEq, Eq, Structural)]
pub enum ColorControlMode {
    Auto,
    Manual,
}

impl Default for ColorControlMode {
    fn default() -> (r: Self)
        ensures
            r == ColorControlMode::Auto,
    {
        ColorControlMode::Auto
    }
}

/// What a color setting accepts.
#[derive(Clone, Copy, Debug, PartialEq, Eq, Structural)]
pub struct ColorControlCapabilities {
    pub supports_auto: bool,
    pub min_value: i32,
    pub max_value: i32,
    pub step_value: i32,
    pub default_value: i32,
    pub default_mode: ColorControlMode,
}

/// Whether a color setting with these capabilities accepts `mode` and
/// `value`: automatic mode where it supports it, a manual value within its
/// range.
pub open spec fn accepts(c: ColorControlCapabilities, mode: ColorControlMode, value: i32) -> bool {
    match mode {
        ColorControlMode::Auto => c.supports_auto,
        ColorControlMode::Manual => c.min_value <= value <= c.max_value,
    }
}

/// Width and height in pixels of color images at resolution `r`.
pub open spec fn color_dimensions(r: ColorResolution) -> (u64, u64) {
    match r {
        ColorResolution::Off => (0, 0),
        ColorResolution::Res720p => (1280, 720),
        ColorResolution::Res1080p => (1920, 1080),
        ColorResolution::Res1440p => (2560, 1440),
        ColorResolution::Res1536p => (2048, 1536),
        ColorResolution::Res2160p => (3840, 2160),
        ColorResolution::Res3072p => (4096, 3072),
    }
}

/// Width and height in pixels of depth and IR images in mode `m`.
pub open spec fn depth_dimensions(m: DepthMode) -> (u64, u64) {
    match m {
        DepthMode::Off => (0, 0),
        DepthMode::NfovBinned2x2 => (320, 288),
        DepthMode::NfovUnbinned => (640, 576),
        DepthMode::WfovBinned2x2 => (512, 512),
        DepthMode::WfovUnbinned => (1024, 1024),
        DepthMode::PassiveIr => (1024, 1024),
    }
}

/// Frames per second at rate `f`.
pub open spec fn frames_per_second(f: Fps) -> u64 {
    match f {
        Fps::Fps5 => 5,
        Fps::Fps15 => 15,
        Fps::Fps30 => 30,
    }
}

impl ColorResolution {
    pub fn dimensions(&self) -> (r: (u64, u64))
        ensures
            r == color_dimensions(*self),
    {
        match self {
            ColorResolution::Off => (0, 0),
            ColorResolution::Res720p => (1280, 720),
            ColorResolution::Res1080p => (1920, 1080),
            ColorResolution::Res1440p => (2560, 1440),
            ColorResolution::Res1536p => (2048, 1536),
            ColorResolution::Res2160p => (3840, 2160),
            ColorResolution::Res3072p => (4096, 3072),
        }
    }
}

impl DepthMode {
    pub fn dimensions(&self) -> (r: (u64, u64))
        ensures
            r == depth_dimensions(*self),
    {
        match self {
            DepthMode::Off => (0, 0),
            DepthMode::NfovBinned2x2 => (320, 288),
            DepthMode::NfovUnbinned => (640, 576),
            DepthMode::WfovBinned2x2 => (512, 512),
            DepthMode::WfovUnbinned => (1024, 1024),
            DepthMode::PassiveIr => (1024, 1024),
        }
    }
}

impl Fps {
    pub fn frames_per_second(&self) -> (r: u64)
        ensures
            r == frames_per_second(*self),
    {
        match self {
            Fps::Fps5 => 5,
            Fps::Fps15 => 15,
            Fps::Fps30 => 30,
        }
    }
}

/// A firmware version number.
#[derive(Clone, Copy, Debug, PartialEq, Eq, Structural)]
pub struct Version {
    pub major: u32,
    pub minor: u32,
    pub iteration: u32,
}

/// How a firmware was built.
#[derive(Clone, Copy, Debug, PartialEq, Eq, Structural)]
pub enum FirmwareBuild {
    Release,
    Debug,
}

/// Who signed a firmware.
#[derive(Clone, Copy, Debug, PartialEq, Eq, Structural)]
pub enum FirmwareSignature {
    Msft,
    Test,
    Unsigned,
}

/// The firmware versions of a device's subsystems.
#[derive(Clone, Copy, Debug, PartialEq, Eq, Structural)]
pub struct HardwareVersion {
    pub rgb: Version,
    pub depth: Version,
    pub audio: Version,
    pub depth_sensor: Version,
    pub firmware_build: FirmwareBuild,
    pub firmware_signature: FirmwareSignature,
}

/// Calibration of a device for one depth mode and color resolution.
///
/// The intrinsics and extrinsics stay inside the runtime; the handle layer
/// carries the modes the calibration was taken for.
#[derive(Clone, Copy, Debug, PartialEq, Eq, Structural)]
pub struct Calibration {
    pub depth_mode: DepthMode,
    pub color_resolution: ColorResolution,
}

/// Mounting of the sensor as seen by the body tracker.
#[derive(Clone, Copy, Debug, PartialEq, Eq, Structural)]
pub enum SensorOrientation {
    Default,
    Clockwise90,
    CounterClockwise90,
    Flip180,
}

/// Where body-tracking inference runs.
#[derive(Clone, Copy, Debug, PartialEq, Eq, Structural)]
pub enum ProcessingMode {
    Gpu,
    Cpu,
    GpuCuda,
    GpuTensorrt,
    GpuDirectml,
}

/// Settings with which a body tracker is created.
#[derive(Clone, Copy, Debug, PartialEq, Eq, Structural)]
pub struct TrackerConfiguration {
    pub sensor_orientation: SensorOrientation,
    pub processing_mode: ProcessingMode,
    pub gpu_device_id: i32,
}

/// Default tracker settings: default orientation, inference on the GPU,
/// GPU number 0.
pub open spec fn default_tracker_configuration() -> TrackerConfiguration {
    TrackerConfiguration {
        sensor_orientation: SensorOrientation::Default,
        processing_mode: ProcessingMode::Gpu,
        gpu_device_id: 0,
    }
}

impl Default for TrackerConfiguration {
    fn default() -> (r: Self)
        ensures
            r == default_tracker_configuration(),
    {
        TrackerConfiguration {
            sensor_orientation: SensorOrientation::Default,
            processing_mode: ProcessingMode::Gpu,
            gpu_device_id: 0,
        }
    }
}

/// Whether a tracker can be created on this calibration: body tracking
/// needs an active depth mode, and a GPU number is never negative.
///
/// This is the rule the runtime model in this crate applies; the vendor
/// tracker may refuse other settings too (a missing GPU, a missing model).
pub open spec fn tracker_supported(c: Calibration, config: TrackerConfiguration) -> bool {
    &&& c.depth_mode != DepthMode::Off
    &&& c.depth_mode != DepthMode::PassiveIr
    &&& config.gpu_device_id >= 0
}

impl Calibration {
    /// Whether a tracker can be created on this calibration with `config`.
    pub fn supports_tracking(&self, config: &TrackerConfiguration) -> (r: bool)
        ensures
            r == tracker_supported(*self, *config),
    {
        self.depth_mode != DepthMode::Off && self.depth_mode != DepthMode::PassiveIr
            && config.gpu_device_id >= 0
    }
}

} // verus!
