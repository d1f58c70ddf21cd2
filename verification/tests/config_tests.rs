use wgpaper::config::{
    get_local_config_path, get_path_from_string_expanded, image_extensions_default, push_path,
    wallpaper_directories_default, Background, Config, ConfigColor, ConfigPathError, DeviceType,
    GpuSelector, ListenSocket, ScalingMode, APP_NAME, CONFIG_FILE_NAME, GLOBAL_CONFIG_FILE_PATH,
};
use wgpaper::renderer;
use wgpaper::LaunchOptions;

#[test]
fn default_configuration() {
    let c = Config::default();
    assert!(c.shader().is_none());
    assert!(c.initial_wallpaper().is_none());
    assert_eq!(c.image_extensions(), &["jpg".to_string(), "png".to_string()][..]);
    assert_eq!(c.wallpaper_directories().len(), 1);
    assert!(c.wallpaper_directories()[0].ends_with("/Pictures/Wallpapers"));
    assert!(matches!(c.scaling_mode(), ScalingMode::Cover));
    match c.listen_socket() {
        ListenSocket::UDS { path } => assert_eq!(path, "/tmp/wgpaper.socket"),
        _ => panic!("expected a Unix socket"),
    }
    assert!(c.gpu().is_none());
}

#[test]
fn default_lists() {
    assert_eq!(image_extensions_default(), vec!["jpg".to_string(), "png".to_string()]);
    let dirs = wallpaper_directories_default();
    assert_eq!(dirs.len(), 1);
    assert!(dirs[0].ends_with("/Pictures/Wallpapers"));
}

#[test]
fn tilde_is_expanded_only_at_the_start() {
    assert_eq!(get_path_from_string_expanded("/abs/path".to_string()), "/abs/path");
    assert_eq!(get_path_from_string_expanded("rel/~/x".to_string()), "rel/~/x");
    assert_eq!(get_path_from_string_expanded("~user/x".to_string()), "~user/x");
    let expanded = get_path_from_string_expanded("~/Pictures".to_string());
    assert!(expanded.ends_with("/Pictures"));
}

#[test]
fn configuration_parts_are_read_back() {
    let gpu = GpuSelector { index: Some(1), name_substring: None, device_type: Some(DeviceType::Cpu) };
    let c = Config::from_parts(
        Some("/s.wgsl".to_string()),
        Some("/first.png".to_string()),
        vec!["/a".to_string(), "/b".to_string()],
        vec!["webp".to_string()],
        ScalingMode::Fit { background: Background::Repeat },
        ListenSocket::IP { address: "127.0.0.1:8080".to_string() },
        Some(gpu),
    );
    assert_eq!(c.shader(), Some("/s.wgsl"));
    assert_eq!(c.initial_wallpaper(), Some("/first.png"));
    assert_eq!(c.wallpaper_directories().len(), 2);
    assert_eq!(c.image_extensions(), &["webp".to_string()][..]);
    assert!(matches!(c.scaling_mode(), ScalingMode::Fit { background: Background::Repeat }));
    assert!(matches!(c.listen_socket(), ListenSocket::IP { .. }));
    assert_eq!(c.gpu().unwrap().index, Some(1));

    let options = LaunchOptions::from_config(&c, Some("src".to_string()), None);
    assert_eq!(options.gpu_selector.unwrap().device_type, Some(DeviceType::Cpu));
    assert_eq!(options.shader_source.as_deref(), Some("src"));
    assert!(options.initial_image.is_none());
    assert!(matches!(options.scaling_mode, ScalingMode::Fit { background: Background::Repeat }));
}

#[test]
fn default_gpu_selectors_pick_the_first_adapter() {
    let g = GpuSelector::default();
    assert_eq!(g.index, Some(0));
    assert!(g.name_substring.is_none());
    assert!(g.device_type.is_none());
    let r = renderer::GpuSelector::default();
    assert_eq!(r.index, Some(0));
    assert!(r.device_type.is_none());
}

#[test]
fn default_background_is_a_colour() {
    assert!(matches!(Background::default(), Background::CssColor(_)));
    assert!(matches!(ScalingMode::default(), ScalingMode::Cover));
    let black = ConfigColor::from_name("black").unwrap().css_color();
    assert_eq!(black.to_rgba8(), [0, 0, 0, 255]);
    assert!(ConfigColor::from_name("no-such-colour").is_none());
    assert_eq!(ConfigColor::from_name("red").unwrap().css_color().to_rgba8(), [255, 0, 0, 255]);
    assert_eq!(ConfigColor::default_color().css_color().to_rgba8(), [0, 0, 0, 255]);
}

#[test]
fn config_file_names() {
    assert_eq!(APP_NAME, "wgpaper");
    assert_eq!(CONFIG_FILE_NAME, "config.json");
    assert_eq!(GLOBAL_CONFIG_FILE_PATH, "/etc/wgpaper/config.json");
}

#[test]
fn paths_are_pushed_like_path_buffers() {
    assert_eq!(push_path("/home/u".to_string(), ".config"), "/home/u/.config");
    assert_eq!(push_path("/home/u/".to_string(), ".config"), "/home/u/.config");
    assert_eq!(push_path("".to_string(), "x"), "x");
    assert_eq!(push_path("/a".to_string(), "/b"), "/b");
}

#[test]
fn local_config_path_prefers_xdg_config_home() {
    let p = get_local_config_path(Some("/xdg".to_string()), Some("/home/u".to_string())).unwrap();
    assert_eq!(p, "/xdg/wgpaper/config.json");
    let p = get_local_config_path(None, Some("/home/u".to_string())).unwrap();
    assert_eq!(p, "/home/u/.config/wgpaper/config.json");
}

#[test]
fn local_config_path_needs_a_home_directory() {
    assert_eq!(
        get_local_config_path(Some("/xdg".to_string()), None),
        Err(ConfigPathError::NoHomeDirectory)
    );
    assert_eq!(get_local_config_path(None, None), Err(ConfigPathError::NoHomeDirectory));
}

#[test]
fn colours_of_channels_and_the_default_background() {
    assert_eq!(ConfigColor::from_rgb([10, 20, 30]).css_color().to_rgba8(), [10, 20, 30, 255]);
    assert!(ConfigColor::from_rgb([0, 0, 0]).css_color() == ConfigColor::default_color().css_color());
    match Background::default_background() {
        Background::CssColor(c) => assert_eq!(c.css_color().to_rgba8(), [0, 0, 0, 255]),
        _ => panic!("expected a CSS colour"),
    }
}
