//! Devices and their live state.

use vstd::prelude::*;

use crate::capability::{CapabilityModel, CapabilityState, GoveeCapability, StateModel};
use crate::model::{models, optional_model};

verus! {

/// A device of the account. The pair of `sku` and `device` identifies it.
#[derive(Debug, PartialEq, Eq)]
pub struct GoveeDevice {
    pub sku: String,
    pub device: String,
    pub device_type: String,
    pub device_name: Option<String>,
    pub capabilities: Vec<GoveeCapability>,
}

/// What a [`GoveeDevice`] stands for.
pub struct DeviceModel {
    pub sku: Seq<char>,
    pub device: Seq<char>,
    pub device_type: Seq<char>,
    pub device_name: Option<Seq<char>>,
    pub capabilities: Seq<CapabilityModel>,
}

impl View for GoveeDevice {
    type V = DeviceModel;

    open spec fn view(&self) -> DeviceModel {
        DeviceModel {
            sku: self.sku@,
            device: self.device@,
            device_type: self.device_type@,
            device_name: optional_model(self.device_name),
            capabilities: models(self.capabilities@),
        }
    }
}

/// The live state of one device.
#[derive(Debug, PartialEq, Eq)]
pub struct DeviceState {
    pub capabilities: Vec<CapabilityState>,
    pub device: String,
    pub sku: String,
}

/// What a [`DeviceState`] stands for.
pub struct DeviceStateModel {
    pub capabilities: Seq<StateModel>,
    pub device: Seq<char>,
    pub sku: Seq<char>,
}

impl View for DeviceState {
    type V = DeviceStateModel;

    open spec fn view(&self) -> DeviceStateModel {
        DeviceStateModel {
            capabilities: models(self.capabilities@),
            device: self.device@,
            sku: self.sku@,
        }
    }
}

} // verus!
