//! Scene options: the named presets that a device offers.

use vstd::prelude::*;

use crate::capability::Instanced;
use crate::model::models;

verus! {

/// The identifier by which a scene is activated. Its shape is the vendor's
/// and is handed back as it came.
#[derive(Debug, Clone, Copy, PartialEq, Eq, Structural)]
pub enum SceneValue {
    Simple(i64),
    Keyed { param_id: i64, id: i64 },
}

/// A named preset of a device.
#[derive(Debug, PartialEq, Eq)]
pub struct SceneOption {
    pub name: String,
    pub value: SceneValue,
}

/// What a [`SceneOption`] stands for.
pub struct SceneOptionModel {
    pub name: Seq<char>,
    pub value: SceneValue,
}

impl View for SceneOption {
    type V = SceneOptionModel;

    open spec fn view(&self) -> SceneOptionModel {
        SceneOptionModel { name: self.name@, value: self.value }
    }
}

/// The parameters of a scene capability: the options it can take.
#[derive(Debug, PartialEq, Eq)]
pub struct DynamicSceneParameters {
    pub data_type: String,
    pub options: Vec<SceneOption>,
}

/// A capability of a scenes response.
#[derive(Debug, PartialEq, Eq)]
pub struct DynamicSceneCapability {
    pub capability_type: String,
    pub instance: String,
    pub parameters: DynamicSceneParameters,
}

/// What a [`DynamicSceneCapability`] stands for.
pub struct SceneCapabilityModel {
    pub kind: Seq<char>,
    pub instance: Seq<char>,
    pub data_type: Seq<char>,
    pub options: Seq<SceneOptionModel>,
}

impl View for DynamicSceneCapability {
    type V = SceneCapabilityModel;

    open spec fn view(&self) -> SceneCapabilityModel {
        SceneCapabilityModel {
            kind: self.capability_type@,
            instance: self.instance@,
            data_type: self.parameters.data_type@,
            options: models(self.parameters.options@),
        }
    }
}

impl Instanced for DynamicSceneCapability {
    open spec fn instance_name(&self) -> Seq<char> {
        self.instance@
    }

    fn instance(&self) -> (name: &String) {
        &self.instance
    }
}

/// The payload of a scenes response.
#[derive(Debug, PartialEq, Eq)]
pub struct DynamicScenePayload {
    pub sku: String,
    pub device: String,
    pub capabilities: Vec<DynamicSceneCapability>,
}

/// What a [`DynamicScenePayload`] stands for.
pub struct ScenePayloadModel {
    pub sku: Seq<char>,
    pub device: Seq<char>,
    pub capabilities: Seq<SceneCapabilityModel>,
}

impl View for DynamicScenePayload {
    type V = ScenePayloadModel;

    open spec fn view(&self) -> ScenePayloadModel {
        ScenePayloadModel {
            sku: self.sku@,
            device: self.device@,
            capabilities: models(self.capabilities@),
        }
    }
}

} // verus!
