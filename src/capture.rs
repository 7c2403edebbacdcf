use crate::decimal::{decimal, push_decimal};
use std::collections::HashMap;
use vstd::prelude::*;
use vstd::string::StringExecFns;

verus! {

broadcast use vstd::std_specs::hash::group_hash_axioms;

/// Time between two on-demand white balance commands, in microseconds.
pub const WHITE_BALANCE_PERIOD_US: u64 = 5_000_000;

/// Microseconds in a second.
pub const MICROS_PER_SECOND: u64 = 1_000_000;

/// Where a camera sits on the machine.
#[derive(Debug, Clone, Copy, PartialEq, Eq, Hash, PartialOrd, Ord, Structural)]
pub enum DevicePosition {
    /// Position on the crop bed, as in the bill of materials.
    BedPosition(u8),
}

impl DevicePosition {
    /// The position as it is written in names, `bed_location_<index>`.
    pub open spec fn label_spec(self) -> Seq<char> {
        match self {
            DevicePosition::BedPosition(idx) => "bed_location_"@ + decimal(idx as nat),
        }
    }

    /// The position as it is written in names, `bed_location_<index>`.
    pub fn label(&self) -> (r: String)
        ensures
            r@ == self.label_spec(),
    {
        let mut s = String::new();
        s.append("bed_location_");
        match self {
            DevicePosition::BedPosition(idx) => push_decimal(&mut s, *idx),
        }
        s
    }
}

/// Where a captured image is stored:
/// `<image_path>/<crop_bed_id>/<location_id>/<timestamp>.png`, without the location
/// directory when the camera has no location.
pub open spec fn image_file_path_spec(
    image_path: Seq<char>,
    crop_bed_id: u8,
    location_id: Option<u8>,
    timestamp: Seq<char>,
) -> Seq<char> {
    image_path + "/"@ + decimal(crop_bed_id as nat) + "/"@ + match location_id {
        Some(l) => decimal(l as nat) + "/"@,
        None => Seq::<char>::empty(),
    } + timestamp + ".png"@
}

/// The file in which an image taken at `timestamp` is stored.
pub fn image_file_path(
    image_path: &str,
    crop_bed_id: u8,
    location_id: Option<u8>,
    timestamp: &str,
) -> (r: String)
    ensures
        r@ == image_file_path_spec(image_path@, crop_bed_id, location_id, timestamp@),
{
    let mut s = String::new();
    s.append(image_path);
    s.append("/");
    push_decimal(&mut s, crop_bed_id);
    s.append("/");
    let ghost before_location = s@;
    match location_id {
        Some(l) => {
            push_decimal(&mut s, l);
            s.append("/");
        },
        None => {},
    }
    assert(s@ =~= before_location + match location_id {
        Some(l) => decimal(l as nat) + "/"@,
        None => Seq::<char>::empty(),
    });
    s.append(timestamp);
    s.append(".png");
    assert(s@ =~= image_file_path_spec(image_path@, crop_bed_id, location_id, timestamp@));
    s
}

/// Configuration of the camera array of one crop bed.
#[derive(Debug, PartialEq, Eq)]
pub struct CameraArrayConfig {
    /// Crop bed the cameras belong to.
    pub crop_bed_id: u8,
    /// Directory under which images are stored.
    pub image_path: String,
    /// Configuration file of each camera, by its position in the bed.
    pub camera_config_files: HashMap<u8, String>,
}

impl CameraArrayConfig {
    /// A configuration with no camera configuration files yet.
    pub fn new(image_path: String, crop_bed_id: u8) -> (r: Self)
        ensures
            r.image_path@ == image_path@,
            r.crop_bed_id == crop_bed_id,
            r.camera_config_files@ == Map::<u8, String>::empty(),
    {
        CameraArrayConfig { crop_bed_id, image_path, camera_config_files: HashMap::new() }
    }

    /// Adds (or replaces) the configuration file of the camera at `bed_position_idx`.
    pub fn add_camera_config_file(self, filepath: String, bed_position_idx: u8) -> (r: Self)
        ensures
            r.crop_bed_id == self.crop_bed_id,
            r.image_path == self.image_path,
            r.camera_config_files@ == self.camera_config_files@.insert(bed_position_idx, filepath),
    {
        let mut r = self;
        r.camera_config_files.insert(bed_position_idx, filepath);
        r
    }
}

/// What polling the stream after a trigger gave.
#[derive(Debug, Clone, Copy, PartialEq, Eq, Structural)]
pub enum FramePoll {
    /// A frame was ready and decoded, `elapsed_us` after the cycle began.
    Ready { elapsed_us: u64 },
    /// No frame was ready.
    Empty,
    /// A buffer came back but could not be read as an image.
    Corrupt,
}

/// What a capture worker does after polling.
#[derive(Debug, Clone, Copy, PartialEq, Eq, Structural)]
pub enum CaptureAction {
    /// Send the frame to the writer, queue a fresh buffer, and sleep `sleep_us` so that
    /// the next cycle starts one frame period after this one.
    Deliver { sleep_us: u64 },
    /// The frame came after the frame period: queue a fresh buffer, send nothing, and
    /// start the next cycle at once.
    Late,
    /// Restart the stream and queue a fresh buffer.
    Restart,
}

/// The frame period for a frame rate, in whole microseconds.
pub fn frame_interval_us(fps: u32) -> (r: u64)
    requires
        fps > 0,
    ensures
        r == MICROS_PER_SECOND as int / fps as int,
{
    MICROS_PER_SECOND / (fps as u64)
}

pub open spec fn capture_action_spec(poll: FramePoll, interval_us: u64) -> CaptureAction {
    match poll {
        FramePoll::Ready { elapsed_us } => if elapsed_us < interval_us {
            CaptureAction::Deliver { sleep_us: (interval_us - elapsed_us) as u64 }
        } else {
            CaptureAction::Late
        },
        _ => CaptureAction::Restart,
    }
}

/// The decision of one capture cycle: a frame inside the frame period is delivered and the
/// rest of the period slept; a late frame is dropped without sleeping; a missing or
/// unreadable frame restarts the stream.
pub fn capture_action(poll: FramePoll, interval_us: u64) -> (r: CaptureAction)
    ensures
        r == capture_action_spec(poll, interval_us),
{
    match poll {
        FramePoll::Ready { elapsed_us } => if elapsed_us < interval_us {
            CaptureAction::Deliver { sleep_us: interval_us - elapsed_us }
        } else {
            CaptureAction::Late
        },
        _ => CaptureAction::Restart,
    }
}

/// The clock of one capture worker: its frame period and when white balance was last
/// asked for, in microseconds of a monotonic clock.
pub struct CaptureClock {
    pub interval_us: u64,
    pub config_tick_us: u64,
}

impl CaptureClock {
    /// The clock of a worker at frame rate `fps` that starts at `now_us`.
    pub fn new(fps: u32, now_us: u64) -> (r: Self)
        requires
            fps > 0,
        ensures
            r.interval_us == MICROS_PER_SECOND as int / fps as int,
            r.config_tick_us == now_us,
    {
        CaptureClock { interval_us: frame_interval_us(fps), config_tick_us: now_us }
    }

    /// Whether white balance is to be asked for at `now_us`: more than five seconds have
    /// passed since it last was. When it is, `now_us` becomes the time it last was.
    pub fn white_balance_due(&mut self, now_us: u64) -> (r: bool)
        ensures
            r == (now_us - old(self).config_tick_us > WHITE_BALANCE_PERIOD_US),
            final(self).interval_us == old(self).interval_us,
            final(self).config_tick_us == if r {
                now_us
            } else {
                old(self).config_tick_us
            },
    {
        let due = now_us > self.config_tick_us && now_us - self.config_tick_us
            > WHITE_BALANCE_PERIOD_US;
        if due {
            self.config_tick_us = now_us;
        }
        due
    }
}

} // verus!
