//! A wallpaper daemon's library: configuration, GPU choice, wallpaper
//! picking, image handling and the decisions of its render loop.
use vstd::prelude::*;

pub mod config;
pub mod device;
pub mod image_wrapper;
pub mod manager;
pub mod output;
pub mod random_file;
pub mod renderer;
pub mod search;
pub mod selector;
pub mod session;
pub mod shaders;
pub mod surface;
pub mod text;
pub mod texture;

use crate::config::{Config, GpuSelector, ScalingMode};
use crate::image_wrapper::ImageWrapper;

verus! {

/// What the daemon is started with.
pub struct LaunchOptions {
    pub gpu_selector: Option<GpuSelector>,
    pub shader_source: Option<String>,
    pub initial_image: Option<ImageWrapper>,
    pub scaling_mode: ScalingMode,
}

impl LaunchOptions {
    /// The options of a configuration: its GPU choice and scaling mode,
    /// with the shader source and the first wallpaper that were loaded.
    pub fn from_config(
        config: &Config,
        shader_source: Option<String>,
        initial_image: Option<ImageWrapper>,
    ) -> (res: LaunchOptions)
        ensures
            res.gpu_selector is Some <==> config.spec_gpu() is Some,
            res.gpu_selector matches Some(g) ==> g.index == config.spec_gpu()->0.index
                && g.device_type == config.spec_gpu()->0.device_type && (g.name_substring is Some
                <==> config.spec_gpu()->0.name_substring is Some) && (g.name_substring is Some
                ==> g.name_substring->0@ == config.spec_gpu()->0.name_substring->0@),
            res.shader_source == shader_source,
            res.initial_image == initial_image,
            res.scaling_mode == config.spec_scaling_mode(),
    {
        let gpu_selector = match config.gpu() {
            Some(g) => Some(g.duplicate()),
            None => None,
        };
        LaunchOptions {
            gpu_selector,
            shader_source,
            initial_image,
            scaling_mode: *config.scaling_mode(),
        }
    }
}

/// What each output is started with beyond the daemon's options: nothing
/// yet.
pub struct PerOutputLaunchOptions {}

/// A command to the drawing thread.
pub enum Commands {
    StartTransitionAll { image: ImageWrapper },
    Stop,
}

/// What the drawing thread's event loop does with what its command channel
/// delivered.
pub enum LoopAction {
    /// Start a transition of all outputs to this wallpaper.
    StartTransitionAll(ImageWrapper),
    /// Stop the event loop.
    Stop,
}

/// The event loop's answer to a command, or to the channel's closing
/// (`None`): a transition for a wallpaper, and a stop for a stop command or
/// a closed channel.
pub fn on_command(received: Option<Commands>) -> (res: LoopAction)
    ensures
        received matches Some(Commands::StartTransitionAll { image }) ==> res
            == LoopAction::StartTransitionAll(image),
        received matches Some(Commands::Stop) ==> res is Stop,
        received is None ==> res is Stop,
{
    match received {
        Some(Commands::StartTransitionAll { image }) => LoopAction::StartTransitionAll(image),
        Some(Commands::Stop) => LoopAction::Stop,
        None => LoopAction::Stop,
    }
}

} // verus!
