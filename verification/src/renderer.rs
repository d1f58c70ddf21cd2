//! The renderer's view of the GPU choice and what a renderer is built with.
use vstd::prelude::*;

use crate::config;
use crate::config::ScalingMode;
use crate::image_wrapper::ImageWrapper;

verus! {

/// The physical kind of a GPU.
#[derive(PartialEq, Eq, Structural, Clone, Copy, Debug)]
pub enum DeviceType {
    Other,
    IntegratedGpu,
    DiscreteGpu,
    VirtualGpu,
    Cpu,
}

/// The renderer's device type of a configured one: the variant of the
/// same name.
pub open spec fn device_type_of(src: config::DeviceType) -> DeviceType {
    match src {
        config::DeviceType::Other => DeviceType::Other,
        config::DeviceType::IntegratedGpu => DeviceType::IntegratedGpu,
        config::DeviceType::DiscreteGpu => DeviceType::DiscreteGpu,
        config::DeviceType::VirtualGpu => DeviceType::VirtualGpu,
        config::DeviceType::Cpu => DeviceType::Cpu,
    }
}

impl From<config::DeviceType> for DeviceType {
    fn from(src: config::DeviceType) -> (res: DeviceType) {
        match src {
            config::DeviceType::Other => DeviceType::Other,
            config::DeviceType::IntegratedGpu => DeviceType::IntegratedGpu,
            config::DeviceType::DiscreteGpu => DeviceType::DiscreteGpu,
            config::DeviceType::VirtualGpu => DeviceType::VirtualGpu,
            config::DeviceType::Cpu => DeviceType::Cpu,
        }
    }
}

impl vstd::std_specs::convert::FromSpecImpl<config::DeviceType> for DeviceType {
    open spec fn obeys_from_spec() -> bool {
        true
    }

    open spec fn from_spec(src: config::DeviceType) -> DeviceType {
        device_type_of(src)
    }
}

/// Which GPU the renderer asks for.
#[derive(Debug)]
pub struct GpuSelector {
    pub index: Option<usize>,
    pub name_substring: Option<String>,
    pub device_type: Option<DeviceType>,
}

impl GpuSelector {
    /// A copy of the selector with the same contents.
    pub fn duplicate(&self) -> (res: GpuSelector)
        ensures
            res.index == self.index,
            res.device_type == self.device_type,
            res.name_substring is Some <==> self.name_substring is Some,
            res.name_substring is Some ==> res.name_substring->0@ == self.name_substring->0@,
    {
        GpuSelector {
            index: self.index,
            name_substring: match &self.name_substring {
                Some(s) => Some(s.clone()),
                None => None,
            },
            device_type: self.device_type,
        }
    }
}

/// The renderer's selector of a configured one: the same index and name,
/// and the device type of the same name.
pub open spec fn renderer_selector_of(selector: config::GpuSelector) -> GpuSelector {
    GpuSelector {
        index: selector.index,
        name_substring: selector.name_substring,
        device_type: match selector.device_type {
            Some(d) => Some(device_type_of(d)),
            None => None,
        },
    }
}

impl From<config::GpuSelector> for GpuSelector {
    fn from(selector: config::GpuSelector) -> (res: GpuSelector) {
        GpuSelector {
            index: selector.index,
            name_substring: selector.name_substring,
            device_type: match selector.device_type {
                Some(d) => Some(DeviceType::from(d)),
                None => None,
            },
        }
    }
}

impl vstd::std_specs::convert::FromSpecImpl<config::GpuSelector> for GpuSelector {
    open spec fn obeys_from_spec() -> bool {
        true
    }

    open spec fn from_spec(selector: config::GpuSelector) -> GpuSelector {
        renderer_selector_of(selector)
    }
}

impl Default for GpuSelector {
    /// The selector of the configuration's default: the first adapter.
    fn default() -> (res: GpuSelector)
        ensures
            res.index == Some(0usize),
            res.name_substring is None,
            res.device_type is None,
    {
        GpuSelector::from(config::GpuSelector::default())
    }
}

/// What a renderer for one output is built with.
pub struct RendererOptions<'a> {
    pub gpu_selector: &'a config::GpuSelector,
    pub shader_source: Option<&'a str>,
    pub initial_image: Option<&'a ImageWrapper>,
    pub scaling_mode: &'a ScalingMode,
}

} // verus!
