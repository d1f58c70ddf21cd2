//! The shader entry points: which fragment shader scales an image for a
//! scaling mode, and which one draws a transition.
use vstd::prelude::*;

use crate::config::{Background, ScalingMode};

verus! {

/// The vertex shader's entry point: a full-screen triangle.
pub const VS_ENTRY: &'static str = "vs_main";

/// The entry point of the default cross-fade transition.
pub const DEFAULT_TRANSITION_ENTRY: &'static str = "fs_default_transition";

/// The entry point of a user-provided WGSL transition shader.
pub const CUSTOM_TRANSITION_ENTRY: &'static str = "fs_main";

/// The background is filled with a colour (chosen or automatic) rather than
/// with the image repeated.
pub open spec fn fills_with_color(background: Background) -> bool {
    background is AutoColor || background is CssColor
}

/// The scaling fragment shader's entry point and label for a mode.
pub open spec fn scaling_shader_info_spec(mode: ScalingMode) -> (Seq<char>, Seq<char>) {
    match mode {
        ScalingMode::Fit { background } => if fills_with_color(background) {
            ("fs_fit_bg"@, "scaling_fragment_shader_fit_bg_color"@)
        } else {
            ("fs_fit"@, "scaling_fragment_shader_fit"@)
        },
        ScalingMode::Center { background } => if fills_with_color(background) {
            ("fs_center_bg"@, "scaling_fragment_shader_center_bg_color"@)
        } else {
            ("fs_center"@, "scaling_fragment_shader_center"@)
        },
        ScalingMode::Stretch => ("fs_stretch"@, "scaling_fragment_shader_stretch"@),
        ScalingMode::Cover => ("fs_cover"@, "scaling_fragment_shader_cover"@),
    }
}

/// A fitted or centred image uses its colour-filling shader exactly when the
/// background fills with a colour, automatic or chosen; a repeated or
/// mirrored background uses the plain one. Fitting and centring never share
/// a shader, nor do stretching and covering.
pub proof fn lemma_colour_backgrounds_use_colour_shaders(background: Background)
    ensures
        scaling_shader_info_spec(ScalingMode::Fit { background }).0 == "fs_fit_bg"@ <==> (
        background is AutoColor || background is CssColor),
        !(background is AutoColor || background is CssColor) ==> scaling_shader_info_spec(
            ScalingMode::Fit { background },
        ).0 == "fs_fit"@,
        scaling_shader_info_spec(ScalingMode::Center { background }).0 == "fs_center_bg"@ <==> (
        background is AutoColor || background is CssColor),
        !(background is AutoColor || background is CssColor) ==> scaling_shader_info_spec(
            ScalingMode::Center { background },
        ).0 == "fs_center"@,
        scaling_shader_info_spec(ScalingMode::Fit { background }).0 != scaling_shader_info_spec(
            ScalingMode::Center { background },
        ).0,
        scaling_shader_info_spec(ScalingMode::Stretch).0 == "fs_stretch"@,
        scaling_shader_info_spec(ScalingMode::Cover).0 == "fs_cover"@,
{
    reveal_strlit("fs_fit_bg");
    reveal_strlit("fs_fit");
    reveal_strlit("fs_center_bg");
    reveal_strlit("fs_center");
    assert("fs_fit"@.len() != "fs_fit_bg"@.len());
    assert("fs_center"@.len() != "fs_center_bg"@.len());
}

/// The fragment entry point and a human-readable label for a scaling mode:
/// fitting and centring have a variant that fills the background with a
/// colour; stretching and covering fill the screen.
pub fn scaling_shader_info(mode: &ScalingMode) -> (res: (&'static str, &'static str))
    ensures
        (res.0@, res.1@) == scaling_shader_info_spec(*mode),
        mode matches ScalingMode::Fit { background } ==> (res.0@ == "fs_fit_bg"@ <==> (
        background is AutoColor || background is CssColor)),
        mode matches ScalingMode::Center { background } ==> (res.0@ == "fs_center_bg"@ <==> (
        background is AutoColor || background is CssColor)),
{
    proof {
        match *mode {
            ScalingMode::Fit { background } => lemma_colour_backgrounds_use_colour_shaders(
                background,
            ),
            ScalingMode::Center { background } => lemma_colour_backgrounds_use_colour_shaders(
                background,
            ),
            _ => {},
        }
    }
    match mode {
        ScalingMode::Fit { background } => {
            if matches!(background, Background::AutoColor | Background::CssColor(_)) {
                ("fs_fit_bg", "scaling_fragment_shader_fit_bg_color")
            } else {
                ("fs_fit", "scaling_fragment_shader_fit")
            }
        },
        ScalingMode::Center { background } => {
            if matches!(background, Background::AutoColor | Background::CssColor(_)) {
                ("fs_center_bg", "scaling_fragment_shader_center_bg_color")
            } else {
                ("fs_center", "scaling_fragment_shader_center")
            }
        },
        ScalingMode::Stretch => ("fs_stretch", "scaling_fragment_shader_stretch"),
        ScalingMode::Cover => ("fs_cover", "scaling_fragment_shader_cover"),
    }
}

/// The transition shader's entry point: that of a user-provided WGSL
/// shader where one is given, else the default cross-fade.
pub fn animation_shader_entry(shader_source: Option<&str>) -> (res: &'static str)
    ensures
        shader_source is Some ==> res@ == "fs_main"@,
        shader_source is None ==> res@ == "fs_default_transition"@,
{
    match shader_source {
        Some(_) => CUSTOM_TRANSITION_ENTRY,
        None => DEFAULT_TRANSITION_ENTRY,
    }
}

} // verus!
