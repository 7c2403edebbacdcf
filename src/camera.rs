use vstd::prelude::*;

verus! {

/// How a camera is triggered to capture a frame; only the software trigger is used.
#[derive(Debug, Clone, Copy, PartialEq, Eq, Structural)]
pub enum DeviceTrigger {
    Software,
}

/// How a camera acquires frames.
#[derive(Debug, Clone, Copy, PartialEq, Eq, Structural)]
pub enum AcquisitionMode {
    Continuous,
    SingleFrame,
    MultiFrame,
}

/// The acquisition mode as it stands in a camera configuration file.
#[derive(Debug, Clone, Copy, PartialEq, Eq, Structural)]
pub struct WrapperAcquisitionMode(pub AcquisitionMode);

/// Pixel formats that a camera configuration can name.
#[derive(Debug, Clone, Copy, PartialEq, Eq, Structural)]
pub enum PixelFormat {
    Rgb8Packed,
    BayerRg8,
    Rgb8Planar,
}

/// The pixel format as it stands in a camera configuration file.
#[derive(Debug, Clone, Copy, PartialEq, Eq, Structural)]
pub struct CameraPixelFormat(pub PixelFormat);

/// Region of interest within the sensor: offsets and size in pixels.
#[derive(Debug, Clone, Copy, PartialEq, Eq, Structural)]
pub struct Roi {
    pub x: i32,
    pub y: i32,
    pub w: i32,
    pub h: i32,
}

/// Everything needed to set up one network camera.
#[derive(Debug, Clone, Copy, PartialEq, Eq, Structural)]
pub struct OnyxCameraConfig {
    /// Position of the camera on the crop bed, as in the bill of materials.
    pub bed_location_id: Option<u8>,
    /// Frames per second.
    pub fps: u32,
    /// IPv4 address of the camera as a number, first octet in the most significant byte.
    pub ip_address: u32,
    pub roi: Option<Roi>,
    pub pixel_format: Option<CameraPixelFormat>,
    pub trigger: Option<DeviceTrigger>,
    pub acquisition_mode: Option<WrapperAcquisitionMode>,
    /// Let the camera negotiate the largest packet size (MTU) it can use.
    pub auto_packet_size: Option<bool>,
    pub auto_gain: Option<bool>,
    pub auto_brightness: Option<bool>,
    pub auto_exposure: Option<bool>,
    /// Lower bound of automatic exposure, in microseconds.
    pub exposure_min: Option<i32>,
    /// Upper bound of automatic exposure, in microseconds.
    pub exposure_max: Option<i32>,
}

impl OnyxCameraConfig {
    /// A configuration with the address and frame rate set and nothing else.
    pub fn new(ip_address: u32, fps: u32) -> (r: Self)
        ensures
            r.ip_address == ip_address,
            r.fps == fps,
            r.bed_location_id is None,
            r.roi is None,
            r.pixel_format is None,
            r.trigger is None,
            r.acquisition_mode is None,
            r.auto_packet_size is None,
            r.auto_gain is None,
            r.auto_brightness is None,
            r.auto_exposure is None,
            r.exposure_min is None,
            r.exposure_max is None,
    {
        OnyxCameraConfig {
            bed_location_id: None,
            fps,
            ip_address,
            roi: None,
            pixel_format: None,
            trigger: None,
            acquisition_mode: None,
            auto_packet_size: None,
            auto_gain: None,
            auto_brightness: None,
            auto_exposure: None,
            exposure_min: None,
            exposure_max: None,
        }
    }
}

/// Whether two strings hold the same characters.
pub fn text_eq(a: &str, b: &str) -> (r: bool)
    ensures
        r == (a@ == b@),
{
    let n = a.unicode_len();
    if n != b.unicode_len() {
        return false;
    }
    let mut i: usize = 0;
    while i < n
        invariant
            n == a@.len(),
            n == b@.len(),
            i <= n,
            a@.subrange(0, i as int) == b@.subrange(0, i as int),
        decreases n - i,
    {
        if a.get_char(i) != b.get_char(i) {
            return false;
        }
        assert(a@.subrange(0, i + 1) =~= a@.subrange(0, i as int).push(a@[i as int]));
        assert(b@.subrange(0, i + 1) =~= b@.subrange(0, i as int).push(b@[i as int]));
        i += 1;
    }
    assert(a@ =~= a@.subrange(0, n as int));
    assert(b@ =~= b@.subrange(0, n as int));
    true
}

/// The name under which an acquisition mode is written.
pub open spec fn acquisition_mode_name(m: AcquisitionMode) -> Seq<char> {
    match m {
        AcquisitionMode::Continuous => "Continuous"@,
        AcquisitionMode::SingleFrame => "SingleFrame"@,
        AcquisitionMode::MultiFrame => "MultiFrame"@,
    }
}

/// The acquisition mode that a name is read as.
pub open spec fn parse_acquisition_mode(s: Seq<char>) -> Option<AcquisitionMode> {
    if s == "Continuous"@ {
        Some(AcquisitionMode::Continuous)
    } else if s == "SingleFrame"@ {
        Some(AcquisitionMode::SingleFrame)
    } else if s == "MultiFrame"@ {
        Some(AcquisitionMode::MultiFrame)
    } else {
        None
    }
}

/// The name under which a pixel format is written.
pub open spec fn pixel_format_name(p: PixelFormat) -> Seq<char> {
    match p {
        PixelFormat::Rgb8Packed => "RGB_8_PACKER"@,
        PixelFormat::BayerRg8 => "BAYER_RG_8"@,
        PixelFormat::Rgb8Planar => "RGB_8_PLANAR"@,
    }
}

/// The pixel format that a name is read as.
pub open spec fn parse_pixel_format(s: Seq<char>) -> Option<PixelFormat> {
    if s == "RGB_8_PACKER"@ {
        Some(PixelFormat::Rgb8Packed)
    } else if s == "BAYER_RG_8"@ {
        Some(PixelFormat::BayerRg8)
    } else if s == "RGB_8_PLANAR"@ {
        Some(PixelFormat::Rgb8Planar)
    } else {
        None
    }
}

impl WrapperAcquisitionMode {
    /// The name under which the mode is written.
    pub fn name(&self) -> (r: &'static str)
        ensures
            r@ == acquisition_mode_name(self.0),
    {
        match self.0 {
            AcquisitionMode::Continuous => "Continuous",
            AcquisitionMode::SingleFrame => "SingleFrame",
            AcquisitionMode::MultiFrame => "MultiFrame",
        }
    }

    /// Reads a mode from its name.
    pub fn from_name(name: &str) -> (r: Option<Self>)
        ensures
            r == match parse_acquisition_mode(name@) {
                Some(m) => Some(WrapperAcquisitionMode(m)),
                None => None,
            },
    {
        if text_eq(name, "Continuous") {
            Some(WrapperAcquisitionMode(AcquisitionMode::Continuous))
        } else if text_eq(name, "SingleFrame") {
            Some(WrapperAcquisitionMode(AcquisitionMode::SingleFrame))
        } else if text_eq(name, "MultiFrame") {
            Some(WrapperAcquisitionMode(AcquisitionMode::MultiFrame))
        } else {
            None
        }
    }
}

impl CameraPixelFormat {
    /// The name under which the format is written.
    pub fn name(&self) -> (r: &'static str)
        ensures
            r@ == pixel_format_name(self.0),
    {
        match self.0 {
            PixelFormat::Rgb8Packed => "RGB_8_PACKER",
            PixelFormat::BayerRg8 => "BAYER_RG_8",
            PixelFormat::Rgb8Planar => "RGB_8_PLANAR",
        }
    }

    /// Reads a format from its name.
    pub fn from_name(name: &str) -> (r: Option<Self>)
        ensures
            r == match parse_pixel_format(name@) {
                Some(p) => Some(CameraPixelFormat(p)),
                None => None,
            },
    {
        if text_eq(name, "RGB_8_PACKER") {
            Some(CameraPixelFormat(PixelFormat::Rgb8Packed))
        } else if text_eq(name, "BAYER_RG_8") {
            Some(CameraPixelFormat(PixelFormat::BayerRg8))
        } else if text_eq(name, "RGB_8_PLANAR") {
            Some(CameraPixelFormat(PixelFormat::Rgb8Planar))
        } else {
            None
        }
    }
}

/// A mode written under its name reads back as itself.
pub proof fn lemma_acquisition_mode_round_trip(m: AcquisitionMode)
    ensures
        parse_acquisition_mode(acquisition_mode_name(m)) == Some(m),
{
    reveal_strlit("Continuous");
    reveal_strlit("SingleFrame");
    reveal_strlit("MultiFrame");
    assert("SingleFrame"@.len() != "Continuous"@.len());
    assert("MultiFrame"@.len() != "SingleFrame"@.len());
    assert("MultiFrame"@[0] != "Continuous"@[0]);
}

/// A pixel format written under its name reads back as itself.
pub proof fn lemma_pixel_format_round_trip(p: PixelFormat)
    ensures
        parse_pixel_format(pixel_format_name(p)) == Some(p),
{
    reveal_strlit("RGB_8_PACKER");
    reveal_strlit("BAYER_RG_8");
    reveal_strlit("RGB_8_PLANAR");
    assert("BAYER_RG_8"@.len() != "RGB_8_PACKER"@.len());
    assert("RGB_8_PLANAR"@[10] != "RGB_8_PACKER"@[10]);
    assert("RGB_8_PLANAR"@.len() != "BAYER_RG_8"@.len());
}

/// Why a camera configuration cannot be applied to a device.
#[derive(Debug, Clone, Copy, PartialEq, Eq, Structural)]
pub enum CameraConfigError {
    /// The frame rate is outside what the device reports it can do.
    FrameRateOutOfBounds,
    /// An offset or a size of the region of interest is negative.
    NegativeRoi,
    /// The width or height of the region of interest is not a multiple of every even
    /// binning step the device offers.
    RoiNotBinningMultiple,
}

/// `v` is a multiple of every even step from 2 up to `max_step`.
pub open spec fn multiple_of_even_steps(v: int, max_step: int) -> bool {
    forall|b: int| 2 <= b <= max_step && b % 2 == 0 ==> #[trigger] (v % b) == 0
}

/// Whether `v` is a multiple of every even step from 2 up to `max_step`.
pub fn is_multiple_of_even_steps(v: i32, max_step: i32) -> (r: bool)
    requires
        v >= 0,
    ensures
        r == multiple_of_even_steps(v as int, max_step as int),
{
    let mut b: i64 = 2;
    while b <= max_step as i64
        invariant
            2 <= b,
            b % 2 == 0,
            b <= max_step + 2 || b == 2,
            v >= 0,
            forall|c: int| 2 <= c < b && c % 2 == 0 ==> #[trigger] (v as int % c) == 0,
        decreases max_step as int + 2 - b,
    {
        if (v as i64) % b != 0 {
            return false;
        }
        b = b + 2;
    }
    assert forall|c: int| 2 <= c <= max_step && c % 2 == 0 implies #[trigger] (v as int % c) == 0 by {
        assert(c < b);
    }
    true
}

/// The region of interest fits the device: no negative offset or size, and, when the
/// device bins pixels, a width that is a multiple of every even horizontal binning step
/// up to `max_x_bin` and a height that is a multiple of every even vertical step up to
/// `max_y_bin`.
pub open spec fn roi_fits(roi: Roi, binning: Option<(i32, i32)>) -> bool {
    &&& roi.x >= 0 && roi.y >= 0 && roi.w >= 0 && roi.h >= 0
    &&& match binning {
        None => true,
        Some((max_x_bin, max_y_bin)) => multiple_of_even_steps(roi.w as int, max_x_bin as int)
            && multiple_of_even_steps(roi.h as int, max_y_bin as int),
    }
}

/// Checks a camera configuration against what the device reports: its frame rate range
/// `[min_fps, max_fps]` and, when it bins pixels, its largest binning steps
/// `(max_x_bin, max_y_bin)`.
pub fn check_camera_config(
    config: &OnyxCameraConfig,
    min_fps: u32,
    max_fps: u32,
    binning: Option<(i32, i32)>,
) -> (r: Result<(), CameraConfigError>)
    ensures
        r is Ok <==> (min_fps <= config.fps <= max_fps && match config.roi {
            None => true,
            Some(roi) => roi_fits(roi, binning),
        }),
        !(min_fps <= config.fps <= max_fps) ==> r == Err::<(), CameraConfigError>(
            CameraConfigError::FrameRateOutOfBounds,
        ),
        r == Err::<(), CameraConfigError>(CameraConfigError::NegativeRoi) ==> config.roi is Some
            && !(config.roi->Some_0.x >= 0 && config.roi->Some_0.y >= 0 && config.roi->Some_0.w
            >= 0 && config.roi->Some_0.h >= 0),
        r == Err::<(), CameraConfigError>(CameraConfigError::RoiNotBinningMultiple)
            ==> config.roi is Some && binning is Some && !roi_fits(config.roi->Some_0, binning),
{
    if !(min_fps <= config.fps && config.fps <= max_fps) {
        return Err(CameraConfigError::FrameRateOutOfBounds);
    }
    if let Some(roi) = config.roi {
        if roi.x < 0 || roi.y < 0 || roi.w < 0 || roi.h < 0 {
            return Err(CameraConfigError::NegativeRoi);
        }
        if let Some((max_x_bin, max_y_bin)) = binning {
            if !is_multiple_of_even_steps(roi.w, max_x_bin) || !is_multiple_of_even_steps(
                roi.h,
                max_y_bin,
            ) {
                return Err(CameraConfigError::RoiNotBinningMultiple);
            }
        }
    }
    Ok(())
}

/// One setting applied to a camera while it is set up.
#[derive(Debug, Clone, Copy, PartialEq, Eq, Structural)]
pub enum SetupStep {
    FrameRate(u32),
    Region(Roi),
    PixelFormat(PixelFormat),
    AcquisitionMode(AcquisitionMode),
    /// Continuous automatic exposure, where the device offers it.
    ExposureAuto,
    AutoBrightness,
    ExposureMin(i32),
    ExposureMax(i32),
    /// Automatic gain, where the device offers it.
    GainAuto,
    /// White balance on demand, for devices without automatic white balance.
    WhiteBalanceOnDemand,
    Trigger(DeviceTrigger),
    AutoPacketSize,
}

pub open spec fn step_if(present: bool, step: SetupStep) -> Seq<SetupStep> {
    if present {
        seq![step]
    } else {
        Seq::empty()
    }
}

/// The settings a configuration asks for, in the order they are applied: the trigger
/// comes after the others so that it is not overwritten, and packet size negotiation
/// comes last.
pub open spec fn setup_plan(c: OnyxCameraConfig) -> Seq<SetupStep> {
    step_if(true, SetupStep::FrameRate(c.fps))
        + step_if(c.roi is Some, SetupStep::Region(c.roi->Some_0))
        + step_if(c.pixel_format is Some, SetupStep::PixelFormat(c.pixel_format->Some_0.0))
        + step_if(c.acquisition_mode is Some, SetupStep::AcquisitionMode(c.acquisition_mode->Some_0.0))
        + step_if(c.auto_exposure == Some(true), SetupStep::ExposureAuto)
        + step_if(c.auto_brightness == Some(true), SetupStep::AutoBrightness)
        + step_if(c.exposure_min is Some, SetupStep::ExposureMin(c.exposure_min->Some_0))
        + step_if(c.exposure_max is Some, SetupStep::ExposureMax(c.exposure_max->Some_0))
        + step_if(c.auto_gain == Some(true), SetupStep::GainAuto)
        + step_if(true, SetupStep::WhiteBalanceOnDemand)
        + step_if(c.trigger is Some, SetupStep::Trigger(c.trigger->Some_0))
        + step_if(c.auto_packet_size == Some(true), SetupStep::AutoPacketSize)
}

fn push_if(steps: &mut Vec<SetupStep>, present: bool, step: SetupStep)
    ensures
        final(steps)@ == old(steps)@ + step_if(present, step),
{
    if present {
        steps.push(step);
    }
    assert(steps@ =~= old(steps)@ + step_if(present, step));
}

/// The settings to apply to a camera for a configuration, in order.
pub fn setup_steps(config: &OnyxCameraConfig) -> (r: Vec<SetupStep>)
    ensures
        r@ == setup_plan(*config),
{
    let c = *config;
    let mut steps: Vec<SetupStep> = Vec::new();
    push_if(&mut steps, true, SetupStep::FrameRate(c.fps));
    assert(steps@ =~= step_if(true, SetupStep::FrameRate(c.fps)));
    let roi = match c.roi {
        Some(roi) => roi,
        None => Roi { x: 0, y: 0, w: 0, h: 0 },
    };
    push_if(&mut steps, c.roi.is_some(), SetupStep::Region(roi));
    let format = match c.pixel_format {
        Some(p) => p.0,
        None => PixelFormat::BayerRg8,
    };
    push_if(&mut steps, c.pixel_format.is_some(), SetupStep::PixelFormat(format));
    let mode = match c.acquisition_mode {
        Some(m) => m.0,
        None => AcquisitionMode::Continuous,
    };
    push_if(&mut steps, c.acquisition_mode.is_some(), SetupStep::AcquisitionMode(mode));
    push_if(&mut steps, c.auto_exposure == Some(true), SetupStep::ExposureAuto);
    push_if(&mut steps, c.auto_brightness == Some(true), SetupStep::AutoBrightness);
    let min = match c.exposure_min {
        Some(v) => v,
        None => 0,
    };
    push_if(&mut steps, c.exposure_min.is_some(), SetupStep::ExposureMin(min));
    let max = match c.exposure_max {
        Some(v) => v,
        None => 0,
    };
    push_if(&mut steps, c.exposure_max.is_some(), SetupStep::ExposureMax(max));
    push_if(&mut steps, c.auto_gain == Some(true), SetupStep::GainAuto);
    push_if(&mut steps, true, SetupStep::WhiteBalanceOnDemand);
    let trigger = match c.trigger {
        Some(t) => t,
        None => DeviceTrigger::Software,
    };
    push_if(&mut steps, c.trigger.is_some(), SetupStep::Trigger(trigger));
    push_if(&mut steps, c.auto_packet_size == Some(true), SetupStep::AutoPacketSize);
    steps
}

} // verus!
