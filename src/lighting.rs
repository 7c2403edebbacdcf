use crate::pdm::{actuation, duty_for, Actuation, ActuationView, ACTUATION_PGN, DUTY_OFF, DUTY_ON};
use std::collections::HashMap;
use vstd::prelude::*;

verus! {

broadcast use vstd::std_specs::hash::group_hash_axioms;

/// Configuration of the lighting component of one crop bed.
#[derive(Debug, PartialEq, Eq)]
pub struct CropBedLightingConfig {
    /// Crop bed the lighting is attached to.
    pub crop_bed_id: u8,
    /// CAN interface name, such as `can3`.
    pub canbus_id: String,
    /// Local port on which light messages arrive.
    pub port: i32,
    /// Configuration file of each PDM, by its index in the bed.
    pub pdm_config_files: HashMap<u8, String>,
}

impl CropBedLightingConfig {
    /// A configuration with no PDM configuration files yet.
    pub fn new(crop_bed_id: u8, canbus_id: String, port: i32) -> (r: Self)
        ensures
            r.crop_bed_id == crop_bed_id,
            r.canbus_id@ == canbus_id@,
            r.port == port,
            r.pdm_config_files@ == Map::<u8, String>::empty(),
    {
        CropBedLightingConfig { crop_bed_id, canbus_id, port, pdm_config_files: HashMap::new() }
    }

    /// Adds (or replaces) the configuration file of the PDM at index `pdm_id`.
    pub fn add_pdm_config_file(self, filepath: String, pdm_id: u8) -> (r: Self)
        ensures
            r.crop_bed_id == self.crop_bed_id,
            r.canbus_id == self.canbus_id,
            r.port == self.port,
            r.pdm_config_files@ == self.pdm_config_files@.insert(pdm_id, filepath),
    {
        let mut r = self;
        r.pdm_config_files.insert(pdm_id, filepath);
        r
    }
}

/// A lighting command from the lighting controller.
#[derive(Debug, PartialEq, Eq)]
pub struct LightMessage {
    /// Channels of the lighting PDM to switch.
    pub channels: Vec<u8>,
    /// Switch on (duty 100) rather than off (duty 0).
    pub is_on: bool,
    /// Camera the light belongs to.
    pub cam_id: u8,
    /// Crop bed the light belongs to.
    pub crop_bed_id: u8,
}

/// The command for a light message: its channels, on the first PDM, at duty 100 when it
/// switches on and 0 when it switches off.
pub open spec fn light_actuation_spec(m: LightMessage) -> ActuationView {
    actuation(0, m.channels@, duty_for(m.is_on))
}

/// The command that carries out a light message at once.
pub fn light_actuation(message: LightMessage) -> (r: Actuation)
    ensures
        r@ == light_actuation_spec(message),
{
    let duty = if message.is_on {
        DUTY_ON
    } else {
        DUTY_OFF
    };
    Actuation { pdm_index: 0, pgn: ACTUATION_PGN, channels: message.channels, duty_percent: duty }
}

} // verus!
