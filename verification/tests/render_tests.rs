use wgpaper::config::{Background, ConfigColor, DeviceType as ConfigDeviceType, GpuSelector, ScalingMode};
use wgpaper::device::{
    choose_sampler, get_address_mode_and_bg_color, AddressMode, GpuDevice, RenderManager,
    ScalerCache, ScalingModeFlat,
};
use wgpaper::image_wrapper::ImageWrapper;
use wgpaper::output::{accepts_size, calculate_global_bounds, frame_plan, Bounds, BoundsError};
use wgpaper::renderer::DeviceType;
use wgpaper::selector::{AdapterInfo, Backend, WgpuSelector};
use wgpaper::shaders::{animation_shader_entry, scaling_shader_info, DEFAULT_TRANSITION_ENTRY, VS_ENTRY};
use wgpaper::surface::{preferred_format, BufferRing};
use wgpaper::texture::{prepare_upload, swap_red_blue, TextureFormat};

fn red() -> ConfigColor {
    ConfigColor::from_rgb([255, 0, 0])
}

#[test]
fn scaling_shader_entry_points() {
    assert_eq!(scaling_shader_info(&ScalingMode::Stretch), ("fs_stretch", "scaling_fragment_shader_stretch"));
    assert_eq!(scaling_shader_info(&ScalingMode::Cover), ("fs_cover", "scaling_fragment_shader_cover"));
    assert_eq!(
        scaling_shader_info(&ScalingMode::Fit { background: Background::AutoColor }),
        ("fs_fit_bg", "scaling_fragment_shader_fit_bg_color")
    );
    assert_eq!(
        scaling_shader_info(&ScalingMode::Fit { background: Background::Repeat }),
        ("fs_fit", "scaling_fragment_shader_fit")
    );
    assert_eq!(
        scaling_shader_info(&ScalingMode::Center { background: Background::CssColor(red()) }),
        ("fs_center_bg", "scaling_fragment_shader_center_bg_color")
    );
    assert_eq!(
        scaling_shader_info(&ScalingMode::Center { background: Background::MirrorRepeat }),
        ("fs_center", "scaling_fragment_shader_center")
    );
}

#[test]
fn transition_entry_points() {
    assert_eq!(animation_shader_entry(Some("@fragment fn fs_main() {}")), "fs_main");
    assert_eq!(animation_shader_entry(None), "fs_default_transition");
    assert_eq!(DEFAULT_TRANSITION_ENTRY, "fs_default_transition");
    assert_eq!(VS_ENTRY, "vs_main");
}

#[test]
fn bgra_upload_swaps_red_and_blue() {
    let rgba = [1u8, 2, 3, 4, 5, 6, 7, 8, 9];
    let upload = prepare_upload((2, 1), &rgba, TextureFormat::Bgra8UnormSrgb);
    assert_eq!(upload.data, vec![3, 2, 1, 4, 7, 6, 5, 8]);
    assert_eq!(upload.bytes_per_row, Some(8));
    assert_eq!(upload.rows_per_image, Some(1));
    let upload = prepare_upload((2, 1), &rgba, TextureFormat::Bgra8Unorm);
    assert_eq!(upload.data, vec![3, 2, 1, 4, 7, 6, 5, 8]);
}

#[test]
fn rgba_and_other_uploads_copy_the_bytes() {
    let rgba = [1u8, 2, 3, 4, 5];
    for format in [TextureFormat::Rgba8Unorm, TextureFormat::Rgba8UnormSrgb, TextureFormat::Other] {
        let upload = prepare_upload((1, 1), &rgba, format);
        assert_eq!(upload.data, rgba.to_vec());
        assert_eq!(upload.bytes_per_row, Some(4));
    }
}

#[test]
fn swapping_twice_restores_whole_pixels() {
    let rgba = [10u8, 20, 30, 40, 50, 60, 70, 80, 90, 100];
    let twice = swap_red_blue(&swap_red_blue(&rgba));
    assert_eq!(twice, rgba[..8].to_vec());
}

#[test]
fn flat_modes_ignore_the_background() {
    assert_eq!(ScalingModeFlat::from_mode(&ScalingMode::Fit { background: Background::Repeat }), ScalingModeFlat::Fit);
    assert_eq!(ScalingModeFlat::from_mode(&ScalingMode::Fit { background: Background::AutoColor }), ScalingModeFlat::Fit);
    assert_eq!(ScalingModeFlat::from_mode(&ScalingMode::Center { background: Background::MirrorRepeat }), ScalingModeFlat::Center);
    assert_eq!(ScalingModeFlat::from_mode(&ScalingMode::Stretch), ScalingModeFlat::Stretch);
    assert_eq!(ScalingModeFlat::from_mode(&ScalingMode::Cover), ScalingModeFlat::Cover);
}

#[test]
fn sampler_choice() {
    let repeat = "repeat";
    let mirror = "mirror";
    assert_eq!(*choose_sampler(&ScalingMode::Fit { background: Background::MirrorRepeat }, &repeat, &mirror), "mirror");
    assert_eq!(*choose_sampler(&ScalingMode::Center { background: Background::MirrorRepeat }, &repeat, &mirror), "mirror");
    assert_eq!(*choose_sampler(&ScalingMode::Fit { background: Background::AutoColor }, &repeat, &mirror), "repeat");
    assert_eq!(*choose_sampler(&ScalingMode::Cover, &repeat, &mirror), "repeat");
    assert_eq!(*choose_sampler(&ScalingMode::Stretch, &repeat, &mirror), "repeat");
}

#[test]
fn surface_address_mode_and_background_colour() {
    let (mode, _) = get_address_mode_and_bg_color(&ScalingMode::Fit { background: Background::Repeat });
    assert_eq!(mode, AddressMode::Repeat);
    let (mode, colour) = get_address_mode_and_bg_color(&ScalingMode::Center { background: Background::CssColor(red()) });
    assert_eq!(mode, AddressMode::MirrorRepeat);
    assert_eq!(colour.css_color().to_rgba8(), [255, 0, 0, 255]);
    let (mode, colour) = get_address_mode_and_bg_color(&ScalingMode::Fit { background: Background::AutoColor });
    assert_eq!(mode, AddressMode::MirrorRepeat);
    assert_eq!(colour.css_color().to_rgba8(), [0, 0, 0, 255]);
    let (mode, _) = get_address_mode_and_bg_color(&ScalingMode::Cover);
    assert_eq!(mode, AddressMode::MirrorRepeat);
}

#[test]
fn scaler_cache_makes_each_scaler_once() {
    let mut cache: ScalerCache<u32> = ScalerCache::new();
    assert!(cache.get(ScalingModeFlat::Fit).is_none());
    cache.ensure_with(ScalingModeFlat::Fit, || 7);
    cache.ensure_with(ScalingModeFlat::Fit, || 9);
    cache.ensure_with(ScalingModeFlat::Cover, || 3);
    assert_eq!(cache.get(ScalingModeFlat::Fit), Some(&7));
    assert_eq!(cache.get(ScalingModeFlat::Cover), Some(&3));
    assert!(cache.get(ScalingModeFlat::Stretch).is_none());
    assert!(cache.get(ScalingModeFlat::Center).is_none());
}

fn device(name: &str, device_type: DeviceType, tag: u8) -> GpuDevice<u8> {
    GpuDevice::from_parts(
        AdapterInfo { name: name.to_string(), device_type, backend: Backend::Vulkan },
        tag,
    )
}

#[test]
fn devices_are_reused_when_they_fit() {
    let mut manager: RenderManager<&str, u8> = RenderManager::from_instance("instance");
    assert_eq!(*manager.instance(), "instance");
    let discrete = GpuSelector { index: None, name_substring: None, device_type: Some(ConfigDeviceType::DiscreteGpu) };
    let first = manager.get_or_create_device(&discrete, || Ok::<_, ()>(device("RTX", DeviceType::DiscreteGpu, 1)));
    assert_eq!(first, Ok(0));
    let again = manager.get_or_create_device(&discrete, || Ok::<_, ()>(device("other", DeviceType::DiscreteGpu, 2)));
    assert_eq!(again, Ok(0));
    assert_eq!(manager.device(0).handles, 1);
    let cpu = GpuSelector { index: None, name_substring: Some("pipe".to_string()), device_type: None };
    assert_eq!(manager.find_device(&cpu), None);
    let failed = manager.get_or_create_device(&cpu, || Err::<GpuDevice<u8>, &str>("no device"));
    assert_eq!(failed, Err("no device"));
    let made = manager.get_or_create_device(&cpu, || Ok::<_, &str>(device("llvmpipe", DeviceType::Cpu, 3)));
    assert_eq!(made, Ok(1));
    assert_eq!(manager.find_device(&cpu), Some(1));
    assert!(manager.device(1).matches(&WgpuSelector::new().with_name("PIPE")));
    manager.set_next_image_for_all(&ImageWrapper::from_rgba8(vec![0, 0, 0, 0], (1, 1)));
}

#[test]
fn bounds_span_the_outputs() {
    let b = Bounds::new((10, 20), (-5, 0));
    assert_eq!(b.position, (10, 20));
    assert_eq!(b.size, (15, 20));
    let b = calculate_global_bounds(&[Some(Some((1920, 0))), Some(Some((-1280, 300)))]).unwrap();
    assert_eq!(b.position, (1920, 300));
    assert_eq!(b.size, (3200, 300));
    let b = calculate_global_bounds(&[]).unwrap();
    assert_eq!(b.position, (0, 0));
    assert_eq!(b.size, (0, 0));
}

#[test]
fn bounds_need_every_position() {
    assert_eq!(
        calculate_global_bounds(&[Some(Some((0, 0))), Some(None), None]).unwrap_err(),
        BoundsError::MissingPosition
    );
    assert_eq!(calculate_global_bounds(&[None, Some(None)]).unwrap_err(), BoundsError::MissingInfo);
}

#[test]
fn sizes_with_a_zero_side_are_ignored() {
    assert!(accepts_size((1920, 1080)));
    assert!(!accepts_size((0, 1080)));
    assert!(!accepts_size((1920, 0)));
}

#[test]
fn frame_plans() {
    let p = frame_plan(false, true);
    assert!(p.request_next_frame && p.apply_progress);
    let p = frame_plan(true, false);
    assert!(!p.request_next_frame && !p.apply_progress);
}

#[test]
fn buffer_ring_rotates_through_three() {
    let mut ring = BufferRing::new();
    assert_eq!((ring.display(), ring.render()), (0, 1));
    ring.increment();
    assert_eq!((ring.display(), ring.render()), (1, 2));
    ring.increment();
    assert_eq!((ring.display(), ring.render()), (2, 0));
    ring.increment();
    assert_eq!((ring.display(), ring.render()), (0, 1));
}

#[test]
fn bounds_wrap_a_negative_difference() {
    let b = Bounds::new((0, 0), (1920, 1080));
    assert_eq!(b.position, (0, 0));
    assert_eq!(b.size, (4294965376, 4294966216));
    let b = Bounds::new((i32::MAX, 0), (i32::MIN, 0));
    assert_eq!(b.size, (u32::MAX, 0));
    let b = calculate_global_bounds(&[Some(Some((i32::MAX, 0))), Some(Some((i32::MIN, 0)))]).unwrap();
    assert_eq!(b.size, (u32::MAX, 0));
}

#[test]
fn surface_format_prefers_srgb() {
    assert_eq!(preferred_format(&[]), None);
    assert_eq!(preferred_format(&[false, true, true]), Some(1));
    assert_eq!(preferred_format(&[false, false]), Some(0));
    assert_eq!(preferred_format(&[true]), Some(0));
}

#[test]
fn backgrounds_without_a_named_colour_are_filled_black() {
    for mode in [
        ScalingMode::Stretch,
        ScalingMode::Cover,
        ScalingMode::Fit { background: Background::Repeat },
        ScalingMode::Center { background: Background::MirrorRepeat },
        ScalingMode::Fit { background: Background::AutoColor },
    ] {
        let (_, colour) = get_address_mode_and_bg_color(&mode);
        assert_eq!(colour.css_color().to_rgba8(), [0, 0, 0, 255]);
    }
}
