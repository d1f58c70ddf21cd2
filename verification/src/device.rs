//! GPU devices and what they share between the surfaces drawn with them:
//! the choice of sampler and fill colour for a scaling mode, the cache of
//! texture scalers, and the list of devices that new surfaces reuse.
use vstd::prelude::*;

use crate::config;
use crate::config::{css_color_of_rgb, Background, ConfigColor, ScalingMode};
use crate::image_wrapper::ImageWrapper;
use crate::renderer;
use crate::search::{first_index, lemma_first_index_is};
use crate::selector::{adapter_matches, selector_of, AdapterInfo, WgpuSelector};

verus! {

/// A scaling mode without its background: the geometry alone. At most
/// four scaler pipelines exist per device, one for each.
#[derive(PartialEq, Eq, Structural, Clone, Copy, Debug)]
pub enum ScalingModeFlat {
    Stretch,
    Fit,
    Cover,
    Center,
}

/// The geometry of a scaling mode.
pub open spec fn flat_of(mode: ScalingMode) -> ScalingModeFlat {
    match mode {
        ScalingMode::Stretch => ScalingModeFlat::Stretch,
        ScalingMode::Fit { background: _ } => ScalingModeFlat::Fit,
        ScalingMode::Cover => ScalingModeFlat::Cover,
        ScalingMode::Center { background: _ } => ScalingModeFlat::Center,
    }
}

impl ScalingModeFlat {
    /// The geometry of a scaling mode, its background dropped.
    pub fn from_mode(mode: &ScalingMode) -> (res: ScalingModeFlat)
        ensures
            res == flat_of(*mode),
    {
        match mode {
            ScalingMode::Stretch => ScalingModeFlat::Stretch,
            ScalingMode::Fit { background: _ } => ScalingModeFlat::Fit,
            ScalingMode::Cover => ScalingModeFlat::Cover,
            ScalingMode::Center { background: _ } => ScalingModeFlat::Center,
        }
    }
}

/// Two modes of the same geometry share a scaler whatever their
/// backgrounds.
pub proof fn lemma_flat_ignores_background(a: Background, b: Background)
    ensures
        flat_of(ScalingMode::Fit { background: a }) == flat_of(ScalingMode::Fit { background: b }),
        flat_of(ScalingMode::Center { background: a }) == flat_of(
            ScalingMode::Center { background: b },
        ),
{
}

/// How a sampler treats coordinates outside the texture.
#[derive(PartialEq, Eq, Structural, Clone, Copy, Debug)]
pub enum AddressMode {
    Repeat,
    MirrorRepeat,
}

/// The device's mirror-repeat sampler serves the mode: a fitted or centred
/// image with a mirror-repeated background.
pub open spec fn uses_mirror_sampler(mode: ScalingMode) -> bool {
    match mode {
        ScalingMode::Fit { background } => background is MirrorRepeat,
        ScalingMode::Center { background } => background is MirrorRepeat,
        _ => false,
    }
}

/// The sampler for a scaling mode out of a device's two: the
/// mirror-repeat sampler for a fitted or centred image with a
/// mirror-repeated background, else the repeat sampler (a stretched or
/// covering image fills the screen, so wrapping does not show).
pub fn choose_sampler<'a, S>(mode: &ScalingMode, repeat_sampler: &'a S, mirror_repeat_sampler: &'a S) -> (res: &'a S)
    ensures
        uses_mirror_sampler(*mode) ==> res == mirror_repeat_sampler,
        !uses_mirror_sampler(*mode) ==> res == repeat_sampler,
{
    match mode {
        ScalingMode::Fit { background } | ScalingMode::Center { background } => match background {
            Background::MirrorRepeat => mirror_repeat_sampler,
            _ => repeat_sampler,
        },
        _ => repeat_sampler,
    }
}

/// The address mode of the sampler a surface creates for its scaling mode:
/// repeat for a fitted or centred image with a repeated background, mirror
/// repeat otherwise.
pub open spec fn surface_address_mode(mode: ScalingMode) -> AddressMode {
    match mode {
        ScalingMode::Fit { background } => if background is Repeat {
            AddressMode::Repeat
        } else {
            AddressMode::MirrorRepeat
        },
        ScalingMode::Center { background } => if background is Repeat {
            AddressMode::Repeat
        } else {
            AddressMode::MirrorRepeat
        },
        _ => AddressMode::MirrorRepeat,
    }
}

/// The colour a mode fills the background with, where it names one.
pub open spec fn named_fill(mode: ScalingMode) -> Option<ConfigColor> {
    match mode {
        ScalingMode::Fit { background } => match background {
            Background::CssColor(c) => Some(c),
            _ => None,
        },
        ScalingMode::Center { background } => match background {
            Background::CssColor(c) => Some(c),
            _ => None,
        },
        _ => None,
    }
}

/// The named fill of a fitted or centred image is the colour of its colour
/// background, whichever of the two modes; every other mode or background
/// names none.
pub proof fn lemma_named_fill_is_the_configured_colour(mode: ScalingMode)
    ensures
        mode matches ScalingMode::Fit { background: Background::CssColor(c) } ==> named_fill(mode)
            == Some(c),
        mode matches ScalingMode::Center { background: Background::CssColor(c) } ==> named_fill(
            mode,
        ) == Some(c),
        !(mode matches ScalingMode::Fit { background: Background::CssColor(_) }) && !(mode matches ScalingMode::Center {
            background: Background::CssColor(_),
        }) ==> named_fill(mode) is None,
{
}

/// The address mode of a surface's sampler and the background colour of
/// its uniforms for a scaling mode: the named colour of a fitted or centred
/// image with a colour background, else the default colour.
pub fn get_address_mode_and_bg_color(scaling_mode: &ScalingMode) -> (res: (
    AddressMode,
    ConfigColor,
))
    ensures
        res.0 == surface_address_mode(*scaling_mode),
        named_fill(*scaling_mode) matches Some(c) ==> res.1 == c,
        scaling_mode matches ScalingMode::Fit { background: Background::CssColor(c) } ==> res.1 == c,
        scaling_mode matches ScalingMode::Center { background: Background::CssColor(c) } ==> res.1
            == c,
        named_fill(*scaling_mode) is None ==> res.1.spec_value() == css_color_of_rgb(
            seq![0u8, 0u8, 0u8],
        ),
{
    match scaling_mode {
        ScalingMode::Fit { background } | ScalingMode::Center { background } => {
            match background {
                Background::Repeat => (AddressMode::Repeat, ConfigColor::default_color()),
                Background::CssColor(color) => (AddressMode::MirrorRepeat, *color),
                _ => (AddressMode::MirrorRepeat, ConfigColor::default_color()),
            }
        },
        ScalingMode::Stretch | ScalingMode::Cover => (
            AddressMode::MirrorRepeat,
            ConfigColor::default_color(),
        ),
    }
}

/// The texture scalers of a device, at most one for each geometry, made
/// when first needed and then reused.
pub struct ScalerCache<S> {
    stretch: Option<S>,
    fit: Option<S>,
    cover: Option<S>,
    center: Option<S>,
}

impl<S> ScalerCache<S> {
    /// The scaler of a geometry, where one was made.
    pub closed spec fn entry(&self, flat: ScalingModeFlat) -> Option<S> {
        match flat {
            ScalingModeFlat::Stretch => self.stretch,
            ScalingModeFlat::Fit => self.fit,
            ScalingModeFlat::Cover => self.cover,
            ScalingModeFlat::Center => self.center,
        }
    }

    /// A cache with no scaler yet.
    pub fn new() -> (res: ScalerCache<S>)
        ensures
            forall|flat: ScalingModeFlat| #[trigger] res.entry(flat) is None,
    {
        ScalerCache { stretch: None, fit: None, cover: None, center: None }
    }

    /// The scaler of a geometry, where one was made.
    pub fn get(&self, flat: ScalingModeFlat) -> (res: Option<&S>)
        ensures
            res is Some <==> self.entry(flat) is Some,
            res is Some ==> *res->0 == self.entry(flat)->0,
    {
        match flat {
            ScalingModeFlat::Stretch => self.stretch.as_ref(),
            ScalingModeFlat::Fit => self.fit.as_ref(),
            ScalingModeFlat::Cover => self.cover.as_ref(),
            ScalingModeFlat::Center => self.center.as_ref(),
        }
    }

    /// Makes the scaler of a geometry with `create` where there is none
    /// yet; a scaler already made is kept, and so are those of the other
    /// geometries.
    pub fn ensure_with<F: FnOnce() -> S>(&mut self, flat: ScalingModeFlat, create: F)
        requires
            old(self).entry(flat) is None ==> call_requires(create, ()),
        ensures
            old(self).entry(flat) is Some ==> final(self).entry(flat) == old(self).entry(flat),
            old(self).entry(flat) is None ==> (final(self).entry(flat) matches Some(s)
                && call_ensures(create, (), s)),
            forall|other: ScalingModeFlat|
                other != flat ==> #[trigger] final(self).entry(other) == old(self).entry(other),
    {
        match flat {
            ScalingModeFlat::Stretch => {
                if self.stretch.is_none() {
                    self.stretch = Some(create());
                }
            },
            ScalingModeFlat::Fit => {
                if self.fit.is_none() {
                    self.fit = Some(create());
                }
            },
            ScalingModeFlat::Cover => {
                if self.cover.is_none() {
                    self.cover = Some(create());
                }
            },
            ScalingModeFlat::Center => {
                if self.center.is_none() {
                    self.center = Some(create());
                }
            },
        }
    }
}

/// A GPU device: the adapter it was made on, and what the renderer holds of
/// it (the device, its queue and the resources shared by its surfaces).
pub struct GpuDevice<H> {
    pub adapter_info: AdapterInfo,
    pub handles: H,
}

impl<H> GpuDevice<H> {
    /// A device of an adapter and its resources.
    pub fn from_parts(adapter_info: AdapterInfo, handles: H) -> (res: GpuDevice<H>)
        ensures
            res.adapter_info == adapter_info,
            res.handles == handles,
    {
        GpuDevice { adapter_info, handles }
    }

    /// Whether the device's adapter meets the selector's criteria.
    pub fn matches(&self, selector: &WgpuSelector) -> (res: bool)
        ensures
            res == adapter_matches(*selector, self.adapter_info),
    {
        selector.matches(&self.adapter_info)
    }
}

/// The position of the first device whose adapter meets the criteria, if
/// one does.
pub open spec fn first_matching_device<H>(devices: Seq<GpuDevice<H>>, selector: WgpuSelector) -> Option<int> {
    first_index(devices.len() as int, |i: int| adapter_matches(selector, devices[i].adapter_info))
}

/// The criteria a configured GPU choice selects devices by.
pub open spec fn device_criteria(gpu_selector: config::GpuSelector) -> WgpuSelector {
    selector_of(renderer::renderer_selector_of(gpu_selector))
}

/// The criteria of a configured GPU choice keep its index and name, and
/// match only adapters of its device type (the device type of the same
/// name): a configured discrete GPU is never matched by an integrated one,
/// neither for selecting an adapter nor for reusing a device.
pub proof fn lemma_configured_criteria(gpu_selector: config::GpuSelector, info: AdapterInfo)
    ensures
        device_criteria(gpu_selector).index == gpu_selector.index,
        device_criteria(gpu_selector).name_substring == gpu_selector.name_substring,
        adapter_matches(device_criteria(gpu_selector), info) ==> {
            &&& gpu_selector.device_type == Some(config::DeviceType::Other)
                ==> info.device_type == renderer::DeviceType::Other
            &&& gpu_selector.device_type == Some(config::DeviceType::IntegratedGpu)
                ==> info.device_type == renderer::DeviceType::IntegratedGpu
            &&& gpu_selector.device_type == Some(config::DeviceType::DiscreteGpu)
                ==> info.device_type == renderer::DeviceType::DiscreteGpu
            &&& gpu_selector.device_type == Some(config::DeviceType::VirtualGpu)
                ==> info.device_type == renderer::DeviceType::VirtualGpu
            &&& gpu_selector.device_type == Some(config::DeviceType::Cpu)
                ==> info.device_type == renderer::DeviceType::Cpu
        },
{
}

/// All GPU devices in use, which new surfaces reuse where one fits.
pub struct RenderManager<I, H> {
    instance: I,
    devices: Vec<GpuDevice<H>>,
}

impl<I, H> RenderManager<I, H> {
    /// The devices in use.
    pub closed spec fn spec_devices(&self) -> Seq<GpuDevice<H>> {
        self.devices@
    }

    /// The GPU instance.
    pub closed spec fn spec_instance(&self) -> I {
        self.instance
    }

    /// A manager of the given instance with no device yet.
    pub fn from_instance(instance: I) -> (res: RenderManager<I, H>)
        ensures
            res.spec_instance() == instance,
            res.spec_devices().len() == 0,
    {
        RenderManager { instance, devices: Vec::new() }
    }

    /// The GPU instance.
    pub fn instance(&self) -> (res: &I)
        ensures
            *res == self.spec_instance(),
    {
        &self.instance
    }

    /// The device at a position.
    pub fn device(&self, index: usize) -> (res: &GpuDevice<H>)
        requires
            index < self.spec_devices().len(),
        ensures
            *res == self.spec_devices()[index as int],
    {
        &self.devices[index]
    }

    /// The position of the first device that fits the configured choice, if
    /// one does.
    pub fn find_device(&self, gpu_selector: &config::GpuSelector) -> (res: Option<usize>)
        ensures
            res matches Some(i) ==> first_matching_device(self.spec_devices(), device_criteria(*gpu_selector)) == Some(i as int),
            res is None ==> first_matching_device(self.spec_devices(), device_criteria(*gpu_selector)) is None,
    {
        let criteria = WgpuSelector::from(renderer::GpuSelector::from(gpu_selector.duplicate()));
        let ghost sel = device_criteria(*gpu_selector);
        assert(criteria.index == sel.index && criteria.device_type == sel.device_type);
        let mut i: usize = 0;
        while i < self.devices.len()
            invariant
                0 <= i <= self.devices@.len(),
                sel == device_criteria(*gpu_selector),
                forall|s: AdapterInfo| #[trigger] adapter_matches(criteria, s) == adapter_matches(sel, s),
                forall|j: int| 0 <= j < i ==> !adapter_matches(sel, #[trigger] self.devices@[j].adapter_info),
            decreases self.devices@.len() - i,
        {
            if self.devices[i].matches(&criteria) {
                proof {
                    assert(adapter_matches(criteria, self.devices@[i as int].adapter_info));
                    lemma_first_index_is(
                        self.devices@.len() as int,
                        |k: int| adapter_matches(sel, self.devices@[k].adapter_info),
                        i as int,
                    );
                }
                return Some(i);
            }
            i = i + 1;
        }
        None
    }

    /// The position of a device that fits the configured choice: the first
    /// that does, or else a device made by `create` and added at the end.
    /// Where `create` fails, nothing is added and its error is given.
    pub fn get_or_create_device<E, F: FnOnce() -> Result<GpuDevice<H>, E>>(
        &mut self,
        gpu_selector: &config::GpuSelector,
        create: F,
    ) -> (res: Result<usize, E>)
        requires
            call_requires(create, ()),
        ensures
            final(self).spec_instance() == old(self).spec_instance(),
            first_matching_device(old(self).spec_devices(), device_criteria(*gpu_selector)) matches Some(i)
                ==> res == Ok::<usize, E>(i as usize) && final(self).spec_devices() == old(self).spec_devices(),
            first_matching_device(old(self).spec_devices(), device_criteria(*gpu_selector)) is None ==> {
                &&& res matches Ok(i) ==> exists|d: GpuDevice<H>| call_ensures(create, (), Ok::<GpuDevice<H>, E>(d))
                    && final(self).spec_devices() == old(self).spec_devices().push(d)
                    && i == old(self).spec_devices().len()
                &&& res matches Err(e) ==> call_ensures(create, (), Err::<GpuDevice<H>, E>(e))
                    && final(self).spec_devices() == old(self).spec_devices()
            },
    {
        match self.find_device(gpu_selector) {
            Some(i) => Ok(i),
            None => match create() {
                Ok(device) => {
                    let ghost d = device;
                    self.devices.push(device);
                    Ok(self.devices.len() - 1)
                },
                Err(e) => Err(e),
            },
        }
    }

    /// Hands a new wallpaper to every surface of every device. The surfaces
    /// are not held here, so nothing is done: each output hands the image to
    /// its own surface.
    pub fn set_next_image_for_all(&self, _image: &ImageWrapper) {
    }
}

} // verus!
