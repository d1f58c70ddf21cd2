//! Choosing a GPU adapter: the selection criteria, how an adapter is
//! matched against them, and which adapter a selection picks.
use vstd::prelude::*;

use crate::renderer;
use crate::search::{first_index, lemma_first_index_is, lemma_no_index};
use crate::renderer::DeviceType;
use crate::text::{contains, lowercase_of, occurs_in, to_lowercase};

verus! {

/// A set of graphics backends, as the bits of the GPU library's backend
/// flags.
#[derive(PartialEq, Eq, Structural, Clone, Copy, Debug)]
pub struct BackendSet {
    pub bits: u32,
}

/// The graphics backend an adapter runs on.
#[derive(PartialEq, Eq, Structural, Clone, Copy, Debug)]
pub enum Backend {
    Noop,
    Vulkan,
    Metal,
    Dx12,
    Gl,
    BrowserWebGpu,
}

/// What selection reads of an adapter: its name, its kind and its backend.
#[derive(Debug)]
pub struct AdapterInfo {
    pub name: String,
    pub device_type: DeviceType,
    pub backend: Backend,
}

/// Selection criteria for GPU adapters.
#[derive(Debug)]
pub struct WgpuSelector {
    /// Select by positional index in the adapter list (0 = first).
    pub index: Option<usize>,
    /// Case-insensitive substring match against the adapter's name.
    pub name_substring: Option<String>,
    /// Filter by physical device type.
    pub device_type: Option<DeviceType>,
    /// Optional backend restriction.
    pub backends: Option<BackendSet>,
}

/// Why no adapter was selected.
#[derive(Debug)]
pub enum SelectionError {
    NoAdaptersAvailable { requested_backends: BackendSet },
    IndexOutOfBounds { index: usize, available: usize },
    IndexMismatch { index: usize, name: String },
    NoMatchingAdapter { criteria: WgpuSelector, available_adapters: Vec<AdapterInfo> },
}

/// The adapter `info` meets the criteria of `selector`: its lowercased
/// name contains the selector's lowercased name substring (a match that
/// ignores case), where there is one, and it has the selector's device
/// type, where there is one.
pub open spec fn adapter_matches(selector: WgpuSelector, info: AdapterInfo) -> bool {
    &&& (selector.name_substring matches Some(s) ==> occurs_in(
        lowercase_of(info.name@),
        lowercase_of(s@),
    ))
    &&& (selector.device_type matches Some(d) ==> info.device_type == d)
}

/// The index of the first adapter of `adapters` that meets the criteria,
/// if one does.
pub open spec fn first_match(selector: WgpuSelector, adapters: Seq<AdapterInfo>) -> Option<int> {
    first_index(adapters.len() as int, |i: int| adapter_matches(selector, adapters[i]))
}

impl WgpuSelector {
    /// A selector with no criteria at all: every backend, no index, no
    /// name and no device type.
    pub fn new() -> (res: WgpuSelector)
        ensures
            res.index is None,
            res.name_substring is None,
            res.device_type is None,
            res.backends is None,
    {
        WgpuSelector { index: None, name_substring: None, device_type: None, backends: None }
    }

    /// The selector with the adapter at `index` (0-based) chosen.
    pub fn with_index(self, index: usize) -> (res: WgpuSelector)
        ensures
            res == (WgpuSelector { index: Some(index), ..self }),
    {
        let mut s = self;
        s.index = Some(index);
        s
    }

    /// The selector filtering by `name`, lowercased, as a substring of the
    /// lowercased adapter name (e.g. "nvidia", "intel").
    pub fn with_name(self, name: &str) -> (res: WgpuSelector)
        ensures
            res.index == self.index,
            res.device_type == self.device_type,
            res.backends == self.backends,
            res.name_substring is Some,
            res.name_substring->0@ == lowercase_of(name@),
    {
        let mut s = self;
        s.name_substring = Some(to_lowercase(name));
        s
    }

    /// The selector filtering by physical device type.
    pub fn with_device_type(self, device_type: DeviceType) -> (res: WgpuSelector)
        ensures
            res == (WgpuSelector { device_type: Some(device_type), ..self }),
    {
        let mut s = self;
        s.device_type = Some(device_type);
        s
    }

    /// The selector restricted to the given graphics backends.
    pub fn with_backends(self, backends: BackendSet) -> (res: WgpuSelector)
        ensures
            res == (WgpuSelector { backends: Some(backends), ..self }),
    {
        let mut s = self;
        s.backends = Some(backends);
        s
    }

    /// Prefer a discrete GPU.
    pub fn discrete_gpu() -> (res: WgpuSelector)
        ensures
            res.index is None,
            res.name_substring is None,
            res.device_type == Some(DeviceType::DiscreteGpu),
            res.backends is None,
    {
        WgpuSelector::new().with_device_type(DeviceType::DiscreteGpu)
    }

    /// Prefer an integrated GPU.
    pub fn integrated_gpu() -> (res: WgpuSelector)
        ensures
            res.index is None,
            res.name_substring is None,
            res.device_type == Some(DeviceType::IntegratedGpu),
            res.backends is None,
    {
        WgpuSelector::new().with_device_type(DeviceType::IntegratedGpu)
    }

    /// The first available adapter.
    pub fn first_available() -> (res: WgpuSelector)
        ensures
            res.index == Some(0usize),
            res.name_substring is None,
            res.device_type is None,
            res.backends is None,
    {
        WgpuSelector::new().with_index(0)
    }

    /// Whether the adapter meets all the criteria but the index; the name
    /// is matched without regard to case.
    pub fn matches(&self, info: &AdapterInfo) -> (res: bool)
        ensures
            res == adapter_matches(*self, *info),
    {
        match &self.name_substring {
            Some(substr) => {
                let name = to_lowercase(info.name.as_str());
                let needle = to_lowercase(substr.as_str());
                if !contains(name.as_str(), needle.as_str()) {
                    return false;
                }
            },
            None => {},
        }
        match self.device_type {
            Some(device_type) => {
                if info.device_type != device_type {
                    return false;
                }
            },
            None => {},
        }
        true
    }

    /// The backends to enumerate adapters of: the selector's restriction,
    /// or `all` where it has none.
    pub fn requested_backends(&self, all: BackendSet) -> (res: BackendSet)
        ensures
            res == (match self.backends {
                Some(b) => b,
                None => all,
            }),
    {
        match self.backends {
            Some(b) => b,
            None => all,
        }
    }
}

/// The selector of the renderer's criteria: the same index, name and
/// device type, every backend.
pub open spec fn selector_of(selector: renderer::GpuSelector) -> WgpuSelector {
    WgpuSelector {
        index: selector.index,
        name_substring: selector.name_substring,
        device_type: selector.device_type,
        backends: None,
    }
}

impl From<renderer::GpuSelector> for WgpuSelector {
    fn from(selector: renderer::GpuSelector) -> (res: WgpuSelector)
        ensures
            res.index == selector.index,
            res.name_substring == selector.name_substring,
            res.device_type == selector.device_type,
            res.backends is None,
    {
        WgpuSelector {
            index: selector.index,
            name_substring: selector.name_substring,
            device_type: selector.device_type,
            backends: None,
        }
    }
}

impl vstd::std_specs::convert::FromSpecImpl<renderer::GpuSelector> for WgpuSelector {
    open spec fn obeys_from_spec() -> bool {
        true
    }

    open spec fn from_spec(selector: renderer::GpuSelector) -> WgpuSelector {
        selector_of(selector)
    }
}

/// Converting the renderer's criteria keeps every one of them: the index,
/// the name substring and the device type, with no backend restriction; so
/// a selector converted from criteria with a device type matches only
/// adapters of that type, and one with an index selects only that index.
pub proof fn lemma_conversion_keeps_criteria(s: renderer::GpuSelector, info: AdapterInfo)
    ensures
        selector_of(s).index == s.index,
        selector_of(s).name_substring == s.name_substring,
        selector_of(s).device_type == s.device_type,
        selector_of(s).backends is None,
        s.device_type is Some && adapter_matches(selector_of(s), info) ==> info.device_type
            == s.device_type->0,
{
}

impl Default for WgpuSelector {
    /// The selector of the renderer's default: the first adapter.
    fn default() -> (res: WgpuSelector)
        ensures
            res.index == Some(0usize),
            res.name_substring is None,
            res.device_type is None,
            res.backends is None,
    {
        WgpuSelector::from(renderer::GpuSelector::default())
    }
}

/// Selects an adapter out of those listed for the selector's backends
/// (`requested_backends`), by the criteria of `selector`, and gives its
/// position in `adapters`.
pub fn select_gpu(
    adapters: Vec<AdapterInfo>,
    selector: WgpuSelector,
    requested_backends: BackendSet,
) -> (res: Result<usize, SelectionError>)
    ensures
        adapters.len() == 0 ==> res == Err::<usize, SelectionError>(
            SelectionError::NoAdaptersAvailable { requested_backends },
        ),
        adapters.len() > 0 && selector.index is Some ==> {
            let index = selector.index->0;
            &&& index < adapters.len() && adapter_matches(selector, adapters@[index as int])
                ==> res == Ok::<usize, SelectionError>(index)
            &&& index < adapters.len() && !adapter_matches(selector, adapters@[index as int])
                ==> (res matches Err(SelectionError::IndexMismatch { index: i, name }) && i == index
                && name@ == adapters@[index as int].name@)
            &&& index >= adapters.len() ==> res == Err::<usize, SelectionError>(
                SelectionError::IndexOutOfBounds { index, available: adapters.len() },
            )
        },
        adapters.len() > 0 && selector.index is None ==> {
            &&& first_match(selector, adapters@) matches Some(i) ==> res == Ok::<
                usize,
                SelectionError,
            >(i as usize)
            &&& first_match(selector, adapters@) is None ==> res == Err::<usize, SelectionError>(
                SelectionError::NoMatchingAdapter {
                    criteria: selector,
                    available_adapters: adapters,
                },
            )
        },
        res matches Ok(i) ==> i < adapters.len() && adapter_matches(selector, adapters@[i as int])
            && (selector.index matches Some(index) ==> i == index),
{
    if adapters.len() == 0 {
        return Err(SelectionError::NoAdaptersAvailable { requested_backends });
    }
    match selector.index {
        Some(index) => {
            if index < adapters.len() {
                if selector.matches(&adapters[index]) {
                    return Ok(index);
                } else {
                    let name = adapters[index].name.clone();
                    return Err(SelectionError::IndexMismatch { index, name });
                }
            } else {
                return Err(
                    SelectionError::IndexOutOfBounds { index, available: adapters.len() },
                );
            }
        },
        None => {},
    }
    let mut i: usize = 0;
    while i < adapters.len()
        invariant
            0 <= i <= adapters.len(),
            adapters.len() > 0,
            selector.index is None,
            forall|j: int| 0 <= j < i ==> !adapter_matches(selector, #[trigger] adapters@[j]),
        decreases adapters.len() - i,
    {
        if selector.matches(&adapters[i]) {
            proof {
                lemma_first_match_is(selector, adapters@, i as int);
            }
            return Ok(i);
        }
        i = i + 1;
    }
    proof {
        lemma_no_match(selector, adapters@);
    }
    Err(SelectionError::NoMatchingAdapter { criteria: selector, available_adapters: adapters })
}

/// The first adapter that meets the criteria is the one at `i` when that
/// one does and none before it does.
pub proof fn lemma_first_match_is(selector: WgpuSelector, adapters: Seq<AdapterInfo>, i: int)
    requires
        0 <= i < adapters.len(),
        adapter_matches(selector, adapters[i]),
        forall|j: int| 0 <= j < i ==> !adapter_matches(selector, #[trigger] adapters[j]),
    ensures
        first_match(selector, adapters) == Some(i),
{
    lemma_first_index_is(
        adapters.len() as int,
        |k: int| adapter_matches(selector, adapters[k]),
        i,
    );
}

/// No adapter meets the criteria when none of the list does.
pub proof fn lemma_no_match(selector: WgpuSelector, adapters: Seq<AdapterInfo>)
    requires
        forall|j: int| 0 <= j < adapters.len() ==> !adapter_matches(selector, #[trigger] adapters[j]),
    ensures
        first_match(selector, adapters) is None,
{
    lemma_no_index(adapters.len() as int, |k: int| adapter_matches(selector, adapters[k]));
}

/// Which adapter a device is built on: the one selected by the requested
/// criteria, or, where those select none, the one the default criteria
/// select.
#[derive(PartialEq, Eq, Structural, Debug)]
pub enum AdapterChoice {
    Requested(usize),
    Fallback(usize),
}

/// Combines the selection by the requested criteria with the selection by
/// the default criteria. The default selection is made in any case, and its
/// failure is the result even where the requested criteria selected an
/// adapter.
pub fn choose_adapter(
    requested: Result<usize, SelectionError>,
    fallback: Result<usize, SelectionError>,
) -> (res: Result<AdapterChoice, SelectionError>)
    ensures
        fallback is Err ==> res == Err::<AdapterChoice, SelectionError>(fallback->Err_0),
        fallback matches Ok(f) ==> (requested matches Ok(i) ==> res == Ok::<
            AdapterChoice,
            SelectionError,
        >(AdapterChoice::Requested(i))) && (requested is Err ==> res == Ok::<
            AdapterChoice,
            SelectionError,
        >(AdapterChoice::Fallback(f))),
{
    match fallback {
        Err(e) => Err(e),
        Ok(f) => match requested {
            Ok(i) => Ok(AdapterChoice::Requested(i)),
            Err(_) => Ok(AdapterChoice::Fallback(f)),
        },
    }
}

/// Selection by a name is indifferent to case: two adapters whose names
/// lowercase alike and that are of the same kind are both matched or both
/// not.
pub proof fn lemma_matching_ignores_case(selector: WgpuSelector, a: AdapterInfo, b: AdapterInfo)
    requires
        lowercase_of(a.name@) == lowercase_of(b.name@),
        a.device_type == b.device_type,
    ensures
        adapter_matches(selector, a) == adapter_matches(selector, b),
{
}

/// The case of the configured name substring does not matter either: two
/// selectors that differ only in a name substring that lowercases alike
/// match the same adapters.
pub proof fn lemma_substring_case_ignored(
    a: WgpuSelector,
    b: WgpuSelector,
    sa: String,
    sb: String,
    info: AdapterInfo,
)
    requires
        a.name_substring == Some(sa),
        b.name_substring == Some(sb),
        lowercase_of(sa@) == lowercase_of(sb@),
        a.device_type == b.device_type,
    ensures
        adapter_matches(a, info) == adapter_matches(b, info),
{
}

} // verus!
