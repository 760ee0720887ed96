//! The application settings: temperature thresholds for the warning colours
//! and the Home Assistant connection.

use vstd::prelude::*;

verus! {

/// The bit pattern of the `f32` value 60.0.
pub const SIXTY_DEGREES_BITS: u32 = 0x4270_0000u32;

/// The bit pattern of the `f32` value 80.0.
pub const EIGHTY_DEGREES_BITS: u32 = 0x42A0_0000u32;

/// The settings the user can change. The two thresholds are `f32` values
/// held by their IEEE-754 bit patterns (`f32::to_bits`), which the library
/// stores and hands back unchanged.
#[derive(Debug)]
pub struct AppConfig {
    pub temp_threshold_orange_bits: u32,
    pub temp_threshold_red_bits: u32,
    pub ha_url: Option<String>,
    pub ha_token: Option<String>,
}

fn copy_text(o: &Option<String>) -> (r: Option<String>)
    ensures
        r == *o,
{
    match o {
        Some(s) => Some(s.clone()),
        None => None,
    }
}

impl AppConfig {
    /// A field-by-field copy.
    pub fn duplicate(&self) -> (r: AppConfig)
        ensures
            r == *self,
    {
        AppConfig {
            temp_threshold_orange_bits: self.temp_threshold_orange_bits,
            temp_threshold_red_bits: self.temp_threshold_red_bits,
            ha_url: copy_text(&self.ha_url),
            ha_token: copy_text(&self.ha_token),
        }
    }
}

impl Default for AppConfig {
    /// Orange from 60 degrees, red from 80, no Home Assistant connection.
    fn default() -> (r: AppConfig)
        ensures
            r.temp_threshold_orange_bits == SIXTY_DEGREES_BITS,
            r.temp_threshold_red_bits == EIGHTY_DEGREES_BITS,
            r.ha_url is None,
            r.ha_token is None,
    {
        AppConfig {
            temp_threshold_orange_bits: SIXTY_DEGREES_BITS,
            temp_threshold_red_bits: EIGHTY_DEGREES_BITS,
            ha_url: None,
            ha_token: None,
        }
    }
}

/// A copy of the current settings.
pub fn get_app_config(current: &AppConfig) -> (r: AppConfig)
    ensures
        r == *current,
{
    current.duplicate()
}

/// Replaces the current settings by `config` and hands `config` back.
pub fn update_app_config(current: &mut AppConfig, config: AppConfig) -> (r: AppConfig)
    ensures
        *final(current) == config,
        r == config,
{
    let out = config.duplicate();
    *current = config;
    out
}

/// The settings that a load falls back to when nothing could be read.
pub fn loaded_or_default(loaded: Option<AppConfig>) -> (r: AppConfig)
    ensures
        loaded matches Some(c) ==> r == c,
        loaded is None ==> r.temp_threshold_orange_bits == SIXTY_DEGREES_BITS
            && r.temp_threshold_red_bits == EIGHTY_DEGREES_BITS && r.ha_url is None
            && r.ha_token is None,
{
    match loaded {
        Some(c) => c,
        None => AppConfig::default(),
    }
}

} // verus!
