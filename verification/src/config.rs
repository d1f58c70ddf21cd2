//! The daemon's configuration: scaling strategy, background fill, GPU choice,
//! the socket it listens on and where wallpapers are looked for.
use vstd::prelude::*;

use crate::text::{expand_tilde, tilde_expansion_of};

verus! {

/// The outside colour value carried by a `ConfigColor`.
#[verifier::external_type_specification]
#[verifier::external_body]
pub struct ExCssColor(csscolorparser::Color);

/// What `csscolorparser::Color::from([u8; 3])` gives for three 8-bit
/// channels (each divided by 255, with full alpha).
pub uninterp spec fn css_color_of_rgb(rgb: Seq<u8>) -> csscolorparser::Color;

/// `csscolorparser::Color::from([u8; 3])`: the colour of three 8-bit
/// channels, fully opaque. Its channels are floating point, so the result
/// is named by `css_color_of_rgb` and not spelt out.
#[verifier::external_body]
fn css_color_from_rgb(rgb: [u8; 3]) -> (res: csscolorparser::Color)
    ensures
        res == css_color_of_rgb(rgb@),
{
    csscolorparser::Color::from(rgb)
}

/// `csscolorparser::Color::default()`: opaque black, the channels
/// `(0.0, 0.0, 0.0, 1.0)`, which is what `Color::from([0, 0, 0])` gives
/// (`0 / 255` for each channel and `255 / 255` for alpha).
#[verifier::external_body]
fn css_color_default() -> (res: csscolorparser::Color)
    ensures
        res == css_color_of_rgb(seq![0u8, 0u8, 0u8]),
{
    csscolorparser::Color::default()
}

/// What `csscolorparser::NAMED_COLORS` maps a colour name to.
pub uninterp spec fn named_css_color(name: Seq<char>) -> Option<(u8, u8, u8)>;

/// Looks `name` up in `csscolorparser::NAMED_COLORS` (a map of the
/// W3C named colours, compared without regard to case). The result is
/// named by `named_css_color`; the one fact stated beside the name is the
/// entry `black => [0, 0, 0]` of `csscolorparser`'s table.
#[verifier::external_body]
fn lookup_named_color(name: &str) -> (res: Option<(u8, u8, u8)>)
    ensures
        res == named_css_color(name@),
        name@ == "black"@ ==> res == Some((0u8, 0u8, 0u8)),
{
    csscolorparser::NAMED_COLORS.get(name.into()).map(|c| (c[0], c[1], c[2]))
}

/// A colour of the configuration. Its channels are floating point, so the
/// library carries it unopened: it is handed on to the renderer as it is.
#[derive(Clone, Copy)]
pub struct ConfigColor {
    value: csscolorparser::Color,
}

impl ConfigColor {
    /// The colour of three 8-bit channels, fully opaque.
    pub fn from_rgb(rgb: [u8; 3]) -> (res: ConfigColor)
        ensures
            res.spec_value() == css_color_of_rgb(rgb@),
    {
        ConfigColor { value: css_color_from_rgb(rgb) }
    }

    /// The colour of a CSS colour name, if the name is one.
    pub fn from_name(name: &str) -> (res: Option<ConfigColor>)
        ensures
            res is Some <==> named_css_color(name@) is Some,
            res matches Some(c) ==> (named_css_color(name@) matches Some((r, g, b))
                && c.spec_value() == css_color_of_rgb(seq![r, g, b])),
    {
        match lookup_named_color(name) {
            Some((r, g, b)) => {
                let rgb = [r, g, b];
                assert(rgb@ =~= seq![r, g, b]);
                Some(ConfigColor::from_rgb(rgb))
            },
            None => None,
        }
    }

    /// The colour parser's default colour, opaque black.
    pub fn default_color() -> (res: ConfigColor)
        ensures
            res.spec_value() == css_color_of_rgb(seq![0u8, 0u8, 0u8]),
    {
        ConfigColor { value: css_color_default() }
    }

    /// The outside colour value that this colour carries.
    pub closed spec fn spec_value(&self) -> csscolorparser::Color {
        self.value
    }

    /// The outside colour value.
    pub fn css_color(&self) -> (res: csscolorparser::Color)
        ensures
            res == self.spec_value(),
    {
        self.value
    }

    /// Wraps an outside colour value.
    pub fn from_css_color(value: csscolorparser::Color) -> (res: ConfigColor)
        ensures
            res.spec_value() == value,
    {
        ConfigColor { value }
    }
}

impl Default for ConfigColor {
    fn default() -> ConfigColor {
        ConfigColor::default_color()
    }
}

/// What fills the parts of the screen that a fitted or centred image does
/// not cover.
#[derive(Clone, Copy)]
pub enum Background {
    AutoColor,
    CssColor(ConfigColor),
    Repeat,
    MirrorRepeat,
}

impl Background {
    /// The default background: the CSS colour `black`.
    pub fn default_background() -> (res: Background)
        ensures
            res matches Background::CssColor(c) && c.spec_value() == css_color_of_rgb(
                seq![0u8, 0u8, 0u8],
            ),
    {
        let black = lookup_named_color("black");
        proof {
            reveal_strlit("black");
        }
        let (r, g, b) = black.unwrap();
        let rgb = [r, g, b];
        assert(rgb@ =~= seq![0u8, 0u8, 0u8]);
        Background::CssColor(ConfigColor::from_rgb(rgb))
    }
}

impl Default for Background {
    fn default() -> (res: Background)
        ensures
            res matches Background::CssColor(c) && c.spec_value() == css_color_of_rgb(
                seq![0u8, 0u8, 0u8],
            ),
    {
        Background::default_background()
    }
}

/// How the wallpaper image is laid out on a screen of another size.
#[derive(Clone, Copy)]
pub enum ScalingMode {
    Stretch,
    Fit { background: Background },
    Cover,
    Center { background: Background },
}

impl Default for ScalingMode {
    fn default() -> (res: ScalingMode)
        ensures
            res is Cover,
    {
        ScalingMode::Cover
    }
}

/// Where the daemon listens for commands.
pub enum ListenSocket {
    IP { address: String },
    UDS { path: String },
}

/// The path of the default socket.
pub open spec fn default_socket_path() -> Seq<char> {
    "/tmp/wgpaper.socket"@
}

impl Default for ListenSocket {
    fn default() -> (res: ListenSocket)
        ensures
            res matches ListenSocket::UDS { path } && path@ == default_socket_path(),
    {
        ListenSocket::UDS { path: String::from_str("/tmp/wgpaper.socket") }
    }
}

/// The physical kind of a GPU, as the configuration names it.
#[derive(PartialEq, Eq, Structural, Clone, Copy, Debug)]
pub enum DeviceType {
    Other,
    IntegratedGpu,
    DiscreteGpu,
    VirtualGpu,
    Cpu,
}

impl Default for DeviceType {
    fn default() -> (res: DeviceType)
        ensures
            res == DeviceType::IntegratedGpu,
    {
        DeviceType::IntegratedGpu
    }
}

/// Which GPU the configuration asks for.
#[derive(Debug)]
pub struct GpuSelector {
    pub index: Option<usize>,
    pub name_substring: Option<String>,
    pub device_type: Option<DeviceType>,
}

impl GpuSelector {
    /// A copy of the selector with the same contents.
    pub fn duplicate(&self) -> (res: GpuSelector)
        ensures
            res.index == self.index,
            res.device_type == self.device_type,
            res.name_substring is Some <==> self.name_substring is Some,
            res.name_substring is Some ==> res.name_substring->0@ == self.name_substring->0@,
    {
        GpuSelector {
            index: self.index,
            name_substring: match &self.name_substring {
                Some(s) => Some(s.clone()),
                None => None,
            },
            device_type: self.device_type,
        }
    }
}

impl Default for GpuSelector {
    /// The first adapter, whatever its name or kind.
    fn default() -> (res: GpuSelector)
        ensures
            res.index == Some(0usize),
            res.name_substring is None,
            res.device_type is None,
    {
        GpuSelector { index: Some(0), name_substring: None, device_type: None }
    }
}

/// The name under which the configuration is looked for.
pub const APP_NAME: &'static str = "wgpaper";

/// The file name of the configuration.
pub const CONFIG_FILE_NAME: &'static str = "config.json";

/// The configuration that serves when the user has none of their own.
pub const GLOBAL_CONFIG_FILE_PATH: &'static str = "/etc/wgpaper/config.json";

/// A configured path with a leading `~` expanded to the home directory.
pub fn get_path_from_string_expanded(path: String) -> (res: String)
    ensures
        tilde_expansion_of(path@, res@),
{
    expand_tilde(path.as_str())
}

/// The directory of `~/Pictures/Wallpapers`, expanded.
pub fn wallpaper_directories_default() -> (res: Vec<String>)
    ensures
        res.len() == 1,
        tilde_expansion_of("~/Pictures/Wallpapers"@, res[0]@),
{
    let mut res = Vec::new();
    res.push(get_path_from_string_expanded(String::from_str("~/Pictures/Wallpapers")));
    res
}

/// The file extensions of the default wallpapers: `jpg` and `png`.
pub fn image_extensions_default() -> (res: Vec<String>)
    ensures
        res.len() == 2,
        res[0]@ == "jpg"@,
        res[1]@ == "png"@,
{
    let mut res = Vec::new();
    res.push(String::from_str("jpg"));
    res.push(String::from_str("png"));
    res
}

/// `base` with `name` pushed onto it as `std::path::PathBuf::push` does on
/// Unix: an absolute name replaces the path; otherwise a `/` is put between
/// the two where `base` is not empty and does not end in one.
pub open spec fn pushed_path(base: Seq<char>, name: Seq<char>) -> Seq<char> {
    if name.len() > 0 && name[0] == '/' {
        name
    } else if base.len() > 0 && base.last() != '/' {
        base + seq!['/'] + name
    } else {
        base + name
    }
}

/// `base` with `name` pushed onto it, as a path.
pub fn push_path(base: String, name: &str) -> (res: String)
    ensures
        res@ == pushed_path(base@, name@),
{
    let name_len = name.unicode_len();
    if name_len > 0 && name.get_char(0) == '/' {
        return String::from_str(name);
    }
    let base_len = base.as_str().unicode_len();
    let mut res = base;
    if base_len > 0 && res.as_str().get_char(base_len - 1) != '/' {
        res.append("/");
        proof {
            reveal_strlit("/");
        }
    }
    res.append(name);
    res
}

/// Why the user's configuration file has no path.
#[derive(PartialEq, Eq, Structural, Clone, Copy, Debug)]
pub enum ConfigPathError {
    NoHomeDirectory,
}

/// The path of the user's configuration file, from the value of
/// `XDG_CONFIG_HOME` and the home directory, where each is known: the
/// configuration directory (`XDG_CONFIG_HOME`, else `.config` in the home
/// directory), then `wgpaper/config.json`. The home directory is needed
/// even where `XDG_CONFIG_HOME` is set: without it there is no path.
pub fn get_local_config_path(xdg_config_home: Option<String>, home_dir: Option<String>) -> (res:
    Result<String, ConfigPathError>)
    ensures
        home_dir is None ==> res == Err::<String, ConfigPathError>(
            ConfigPathError::NoHomeDirectory,
        ),
        home_dir matches Some(home) ==> res matches Ok(path) && path@ == pushed_path(
            pushed_path(
                match xdg_config_home {
                    Some(dir) => dir@,
                    None => pushed_path(home@, ".config"@),
                },
                "wgpaper"@,
            ),
            "config.json"@,
        ),
{
    let fallback = match home_dir {
        Some(home) => push_path(home, ".config"),
        None => return Err(ConfigPathError::NoHomeDirectory),
    };
    let config_dir = match xdg_config_home {
        Some(dir) => dir,
        None => fallback,
    };
    let app_dir = push_path(config_dir, APP_NAME);
    Ok(push_path(app_dir, CONFIG_FILE_NAME))
}

/// The daemon's configuration.
pub struct Config {
    shader: Option<String>,
    initial_wallpaper: Option<String>,
    wallpaper_directories: Vec<String>,
    image_extensions: Vec<String>,
    scaling_mode: ScalingMode,
    listen_socket: ListenSocket,
    gpu: Option<GpuSelector>,
}

impl Config {
    /// A configuration of the given parts.
    pub fn from_parts(
        shader: Option<String>,
        initial_wallpaper: Option<String>,
        wallpaper_directories: Vec<String>,
        image_extensions: Vec<String>,
        scaling_mode: ScalingMode,
        listen_socket: ListenSocket,
        gpu: Option<GpuSelector>,
    ) -> (res: Config)
        ensures
            res.spec_shader() == shader,
            res.spec_initial_wallpaper() == initial_wallpaper,
            res.spec_wallpaper_directories() == wallpaper_directories@,
            res.spec_image_extensions() == image_extensions@,
            res.spec_scaling_mode() == scaling_mode,
            res.spec_listen_socket() == listen_socket,
            res.spec_gpu() == gpu,
    {
        Config {
            shader,
            initial_wallpaper,
            wallpaper_directories,
            image_extensions,
            scaling_mode,
            listen_socket,
            gpu,
        }
    }

    pub closed spec fn spec_shader(&self) -> Option<String> {
        self.shader
    }

    pub closed spec fn spec_initial_wallpaper(&self) -> Option<String> {
        self.initial_wallpaper
    }

    pub closed spec fn spec_wallpaper_directories(&self) -> Seq<String> {
        self.wallpaper_directories@
    }

    pub closed spec fn spec_image_extensions(&self) -> Seq<String> {
        self.image_extensions@
    }

    pub closed spec fn spec_scaling_mode(&self) -> ScalingMode {
        self.scaling_mode
    }

    pub closed spec fn spec_listen_socket(&self) -> ListenSocket {
        self.listen_socket
    }

    pub closed spec fn spec_gpu(&self) -> Option<GpuSelector> {
        self.gpu
    }

    /// The animation shader path, if one is configured.
    pub fn shader(&self) -> (res: Option<&str>)
        ensures
            res is Some <==> self.spec_shader() is Some,
            res is Some ==> res->0@ == self.spec_shader()->0@,
    {
        match &self.shader {
            Some(s) => Some(s.as_str()),
            None => None,
        }
    }

    /// The initial wallpaper path, if one is configured.
    pub fn initial_wallpaper(&self) -> (res: Option<&str>)
        ensures
            res is Some <==> self.spec_initial_wallpaper() is Some,
            res is Some ==> res->0@ == self.spec_initial_wallpaper()->0@,
    {
        match &self.initial_wallpaper {
            Some(s) => Some(s.as_str()),
            None => None,
        }
    }

    /// The directories searched for wallpapers.
    pub fn wallpaper_directories(&self) -> (res: &[String])
        ensures
            res@ == self.spec_wallpaper_directories(),
    {
        self.wallpaper_directories.as_slice()
    }

    /// The file extensions a wallpaper may have.
    pub fn image_extensions(&self) -> (res: &[String])
        ensures
            res@ == self.spec_image_extensions(),
    {
        self.image_extensions.as_slice()
    }

    /// The scaling strategy.
    pub fn scaling_mode(&self) -> (res: &ScalingMode)
        ensures
            *res == self.spec_scaling_mode(),
    {
        &self.scaling_mode
    }

    /// The socket the daemon listens on.
    pub fn listen_socket(&self) -> (res: &ListenSocket)
        ensures
            *res == self.spec_listen_socket(),
    {
        &self.listen_socket
    }

    /// The configured GPU choice, if any.
    pub fn gpu(&self) -> (res: Option<&GpuSelector>)
        ensures
            res is Some <==> self.spec_gpu() is Some,
            res is Some ==> *res->0 == self.spec_gpu()->0,
    {
        self.gpu.as_ref()
    }
}

impl Default for Config {
    /// No shader, no initial wallpaper, `~/Pictures/Wallpapers`, `jpg` and
    /// `png`, cover scaling, the default socket and no GPU choice.
    fn default() -> (res: Config)
        ensures
            res.spec_shader() is None,
            res.spec_initial_wallpaper() is None,
            res.spec_wallpaper_directories().len() == 1,
            tilde_expansion_of("~/Pictures/Wallpapers"@, res.spec_wallpaper_directories()[0]@),
            res.spec_image_extensions().len() == 2,
            res.spec_image_extensions()[0]@ == "jpg"@,
            res.spec_image_extensions()[1]@ == "png"@,
            res.spec_scaling_mode() is Cover,
            res.spec_listen_socket() matches ListenSocket::UDS { path } && path@
                == default_socket_path(),
            res.spec_gpu() is None,
    {
        Config {
            shader: None,
            initial_wallpaper: None,
            wallpaper_directories: wallpaper_directories_default(),
            image_extensions: image_extensions_default(),
            scaling_mode: ScalingMode::default(),
            listen_socket: ListenSocket::default(),
            gpu: None,
        }
    }
}

} // verus!
