use vstd::prelude::*;
use crate::types::{AppKey, DevAddr, LoraMode, LoraRegion, EUI};

verus! {

/// Options for bringing the radio into a network. Every field is optional
/// while the value is built; what a transition needs is checked when it is made.
#[derive(Debug, Clone, Copy)]
pub struct LoraConfig {
    pub band: Option<LoraRegion>,
    pub lora_mode: Option<LoraMode>,
    pub device_address: Option<DevAddr>,
    pub device_eui: Option<EUI>,
    pub app_eui: Option<EUI>,
    pub app_key: Option<AppKey>,
}

impl LoraConfig {
    /// Whether the identifiers that a join needs are all there.
    pub open spec fn has_join_identity(&self) -> bool {
        self.device_eui is Some && self.app_eui is Some && self.app_key is Some
    }

    /// The configuration with nothing set.
    pub fn new() -> (r: Self)
        ensures
            r.band is None,
            r.lora_mode is None,
            r.device_address is None,
            r.device_eui is None,
            r.app_eui is None,
            r.app_key is None,
    {
        Self {
            band: None,
            lora_mode: None,
            device_address: None,
            device_eui: None,
            app_eui: None,
            app_key: None,
        }
    }

    /// Sets the band; the last value set stands.
    pub fn band(self, band: LoraRegion) -> (r: Self)
        ensures
            r == (LoraConfig { band: Some(band), ..self }),
    {
        let mut r = self;
        r.band = Some(band);
        r
    }

    /// Sets the operating mode; the last value set stands.
    pub fn lora_mode(self, lora_mode: LoraMode) -> (r: Self)
        ensures
            r == (LoraConfig { lora_mode: Some(lora_mode), ..self }),
    {
        let mut r = self;
        r.lora_mode = Some(lora_mode);
        r
    }

    /// Sets the device address; the last value set stands.
    pub fn device_address(self, device_address: &DevAddr) -> (r: Self)
        ensures
            r == (LoraConfig { device_address: Some(*device_address), ..self }),
    {
        let mut r = self;
        r.device_address = Some(*device_address);
        r
    }

    /// Sets the device EUI; the last value set stands.
    pub fn device_eui(self, device_eui: &EUI) -> (r: Self)
        ensures
            r == (LoraConfig { device_eui: Some(*device_eui), ..self }),
    {
        let mut r = self;
        r.device_eui = Some(*device_eui);
        r
    }

    /// Sets the application EUI; the last value set stands.
    pub fn app_eui(self, app_eui: &EUI) -> (r: Self)
        ensures
            r == (LoraConfig { app_eui: Some(*app_eui), ..self }),
    {
        let mut r = self;
        r.app_eui = Some(*app_eui);
        r
    }

    /// Sets the application key; the last value set stands.
    pub fn app_key(self, app_key: &AppKey) -> (r: Self)
        ensures
            r == (LoraConfig { app_key: Some(*app_key), ..self }),
    {
        let mut r = self;
        r.app_key = Some(*app_key);
        r
    }
}

} // verus!
