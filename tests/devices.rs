use onyx::camera::{
    check_camera_config, setup_steps, AcquisitionMode, CameraConfigError, CameraPixelFormat,
    DeviceTrigger, OnyxCameraConfig, PixelFormat, Roi, SetupStep, WrapperAcquisitionMode,
};
use onyx::capture::{
    capture_action, frame_interval_us, image_file_path, CameraArrayConfig, CaptureAction,
    CaptureClock, DevicePosition, FramePoll,
};
use onyx::lighting::{light_actuation, CropBedLightingConfig, LightMessage};
use onyx::pdm::{ordered_u8_map, Actuation};
use std::collections::HashMap;

fn full_config() -> OnyxCameraConfig {
    let mut config = OnyxCameraConfig::new(u32::from_be_bytes([169, 254, 8, 10]), 3);
    config.roi = Some(Roi { x: 0, y: 0, h: 1024, w: 1280 });
    config.pixel_format = Some(CameraPixelFormat(PixelFormat::BayerRg8));
    config.acquisition_mode = Some(WrapperAcquisitionMode(AcquisitionMode::Continuous));
    config.auto_packet_size = Some(true);
    config.trigger = Some(DeviceTrigger::Software);
    config.bed_location_id = Some(0);
    config.auto_brightness = Some(true);
    config.auto_gain = Some(true);
    config.exposure_min = Some(100);
    config.exposure_max = Some(30000);
    config.auto_exposure = Some(true);
    config
}

#[test]
fn light_message_switches_first_pdm() {
    let on = LightMessage { channels: vec![7, 8, 9], is_on: true, cam_id: 5, crop_bed_id: 2 };
    assert_eq!(
        light_actuation(on),
        Actuation { pdm_index: 0, pgn: 17, channels: vec![7, 8, 9], duty_percent: 100 }
    );
    let off = LightMessage { channels: vec![0], is_on: false, cam_id: 4, crop_bed_id: 2 };
    assert_eq!(
        light_actuation(off),
        Actuation { pdm_index: 0, pgn: 17, channels: vec![0], duty_percent: 0 }
    );
}

#[test]
fn lighting_config_builder() {
    let config = CropBedLightingConfig::new(0, String::from("can3"), 17653)
        .add_pdm_config_file(String::from("./config/devices/crop_bed/pdm_utilities.yaml"), 0);
    assert_eq!(config.canbus_id, "can3");
    assert_eq!(config.port, 17653);
    assert_eq!(config.pdm_config_files.len(), 1);
}

#[test]
fn camera_array_config_builder() {
    let config = CameraArrayConfig::new(String::from("./images"), 1)
        .add_camera_config_file(String::from("./config/devices/crop_bed/camera_2.yaml"), 0)
        .add_camera_config_file(String::from("./config/devices/crop_bed/camera_3.yaml"), 1)
        .add_camera_config_file(String::from("./config/devices/crop_bed/camera_4.yaml"), 1);
    assert_eq!(config.image_path, "./images");
    assert_eq!(config.crop_bed_id, 1);
    assert_eq!(config.camera_config_files.len(), 2);
    assert_eq!(config.camera_config_files[&1], "./config/devices/crop_bed/camera_4.yaml");
}

#[test]
fn table_keys_come_in_ascending_order() {
    let mut table = HashMap::new();
    for k in [12u8, 3, 7, 255, 0] {
        table.insert(k, k as u32 * 2);
    }
    assert_eq!(ordered_u8_map(&table), vec![0, 3, 7, 12, 255]);
    assert_eq!(ordered_u8_map(&HashMap::<u8, ()>::new()), Vec::<u8>::new());
}

#[test]
fn acquisition_mode_names() {
    for mode in [AcquisitionMode::Continuous, AcquisitionMode::SingleFrame, AcquisitionMode::MultiFrame] {
        let m = WrapperAcquisitionMode(mode);
        assert_eq!(WrapperAcquisitionMode::from_name(m.name()), Some(m));
    }
    assert_eq!(WrapperAcquisitionMode(AcquisitionMode::MultiFrame).name(), "MultiFrame");
    assert_eq!(
        WrapperAcquisitionMode::from_name("MultiFrame"),
        Some(WrapperAcquisitionMode(AcquisitionMode::MultiFrame))
    );
    assert_eq!(WrapperAcquisitionMode::from_name("continuous"), None);
}

#[test]
fn pixel_format_names() {
    assert_eq!(CameraPixelFormat(PixelFormat::BayerRg8).name(), "BAYER_RG_8");
    assert_eq!(CameraPixelFormat(PixelFormat::Rgb8Planar).name(), "RGB_8_PLANAR");
    assert_eq!(CameraPixelFormat(PixelFormat::Rgb8Packed).name(), "RGB_8_PACKER");
    for format in [PixelFormat::Rgb8Packed, PixelFormat::BayerRg8, PixelFormat::Rgb8Planar] {
        let p = CameraPixelFormat(format);
        assert_eq!(CameraPixelFormat::from_name(p.name()), Some(p));
    }
    assert_eq!(
        CameraPixelFormat::from_name("RGB_8_PACKER"),
        Some(CameraPixelFormat(PixelFormat::Rgb8Packed))
    );
    assert_eq!(
        CameraPixelFormat::from_name("BAYER_RG_8"),
        Some(CameraPixelFormat(PixelFormat::BayerRg8))
    );
    assert_eq!(
        CameraPixelFormat::from_name("RGB_8_PLANAR"),
        Some(CameraPixelFormat(PixelFormat::Rgb8Planar))
    );
    assert_eq!(CameraPixelFormat::from_name("RGB_8_PACKED"), None);
}

#[test]
fn camera_config_defaults() {
    let config = OnyxCameraConfig::new(u32::from_be_bytes([169, 254, 8, 11]), 10);
    assert_eq!(config.fps, 10);
    assert_eq!(config.ip_address, 0xA9FE_080B);
    assert!(config.roi.is_none() && config.trigger.is_none() && config.auto_gain.is_none());
}

#[test]
fn camera_config_checks() {
    let config = full_config();
    assert_eq!(check_camera_config(&config, 1, 30, Some((4, 4))), Ok(()));
    assert_eq!(check_camera_config(&config, 1, 30, None), Ok(()));
    assert_eq!(check_camera_config(&config, 3, 3, None), Ok(()));
    assert_eq!(check_camera_config(&config, 1, 3, None), Ok(()));
    assert_eq!(
        check_camera_config(&config, 1, 2, None),
        Err(CameraConfigError::FrameRateOutOfBounds)
    );
    assert_eq!(
        check_camera_config(&config, 4, 30, None),
        Err(CameraConfigError::FrameRateOutOfBounds)
    );
    let mut odd = config;
    odd.roi = Some(Roi { x: 0, y: 0, w: 1282, h: 1024 });
    assert_eq!(check_camera_config(&odd, 1, 30, Some((2, 2))), Ok(()));
    assert_eq!(
        check_camera_config(&odd, 1, 30, Some((4, 2))),
        Err(CameraConfigError::RoiNotBinningMultiple)
    );
    let mut negative = config;
    negative.roi = Some(Roi { x: -2, y: 0, w: 1280, h: 1024 });
    assert_eq!(check_camera_config(&negative, 1, 30, None), Err(CameraConfigError::NegativeRoi));
}

#[test]
fn camera_setup_order() {
    let config = full_config();
    assert_eq!(
        setup_steps(&config),
        vec![
            SetupStep::FrameRate(3),
            SetupStep::Region(Roi { x: 0, y: 0, w: 1280, h: 1024 }),
            SetupStep::PixelFormat(PixelFormat::BayerRg8),
            SetupStep::AcquisitionMode(AcquisitionMode::Continuous),
            SetupStep::ExposureAuto,
            SetupStep::AutoBrightness,
            SetupStep::ExposureMin(100),
            SetupStep::ExposureMax(30000),
            SetupStep::GainAuto,
            SetupStep::WhiteBalanceOnDemand,
            SetupStep::Trigger(DeviceTrigger::Software),
            SetupStep::AutoPacketSize,
        ]
    );
    let bare = OnyxCameraConfig::new(1, 5);
    assert_eq!(
        setup_steps(&bare),
        vec![SetupStep::FrameRate(5), SetupStep::WhiteBalanceOnDemand]
    );
}

#[test]
fn capture_cycle_decisions() {
    assert_eq!(frame_interval_us(10), 100_000);
    assert_eq!(frame_interval_us(3), 333_333);
    let interval = 100_000;
    assert_eq!(
        capture_action(FramePoll::Ready { elapsed_us: 30_000 }, interval),
        CaptureAction::Deliver { sleep_us: 70_000 }
    );
    assert_eq!(
        capture_action(FramePoll::Ready { elapsed_us: 100_000 }, interval),
        CaptureAction::Late
    );
    assert_eq!(capture_action(FramePoll::Empty, interval), CaptureAction::Restart);
    assert_eq!(capture_action(FramePoll::Corrupt, interval), CaptureAction::Restart);
}

#[test]
fn white_balance_every_five_seconds() {
    let mut clock = CaptureClock::new(10, 1_000);
    assert_eq!(clock.interval_us, 100_000);
    assert!(!clock.white_balance_due(5_001_000));
    assert!(clock.white_balance_due(5_001_001));
    assert_eq!(clock.config_tick_us, 5_001_001);
    assert!(!clock.white_balance_due(6_000_000));
    assert!(!clock.white_balance_due(10));
}

#[test]
fn lighting_configs_built_alike_are_equal() {
    let build = || {
        CropBedLightingConfig::new(0, String::from("can3"), 17653)
            .add_pdm_config_file(String::from("./config/devices/crop_bed/pdm_utilities.yaml"), 0)
    };
    assert_eq!(build(), build());
    assert_ne!(build(), CropBedLightingConfig::new(0, String::from("can3"), 17653));
}

#[test]
fn device_position_label() {
    assert_eq!(DevicePosition::BedPosition(0).label(), "bed_location_0");
    assert_eq!(DevicePosition::BedPosition(7).label(), "bed_location_7");
    assert_eq!(DevicePosition::BedPosition(42).label(), "bed_location_42");
    assert_eq!(DevicePosition::BedPosition(255).label(), "bed_location_255");
    assert_eq!(DevicePosition::BedPosition(100).label(), "bed_location_100");
}

#[test]
fn image_file_paths() {
    assert_eq!(
        image_file_path("./images", 2, Some(13), "2024-05-01T10:00:00.123456+00:00"),
        "./images/2/13/2024-05-01T10:00:00.123456+00:00.png"
    );
    assert_eq!(image_file_path("/data", 0, None, "t"), "/data/0/t.png");
}
