use wgpaper::config;
use wgpaper::renderer::{self, DeviceType};
use wgpaper::selector::{
    choose_adapter, select_gpu, AdapterChoice, AdapterInfo, Backend, BackendSet, SelectionError,
    WgpuSelector,
};

fn adapter(name: &str, device_type: DeviceType) -> AdapterInfo {
    AdapterInfo { name: name.to_string(), device_type, backend: Backend::Vulkan }
}

fn adapters() -> Vec<AdapterInfo> {
    vec![
        adapter("Intel(R) UHD Graphics 620", DeviceType::IntegratedGpu),
        adapter("NVIDIA GeForce RTX 3060", DeviceType::DiscreteGpu),
        adapter("llvmpipe (LLVM 15.0.7, 256 bits)", DeviceType::Cpu),
    ]
}

const ALL: BackendSet = BackendSet { bits: 0b11_1111 };

#[test]
fn new_selector_has_no_criteria() {
    let s = WgpuSelector::new();
    assert_eq!(s.index, None);
    assert!(s.name_substring.is_none());
    assert_eq!(s.device_type, None);
    assert_eq!(s.backends, None);
}

#[test]
fn default_selector_picks_the_first_adapter() {
    let s = WgpuSelector::default();
    assert_eq!(s.index, Some(0));
    assert!(s.name_substring.is_none());
    assert_eq!(s.device_type, None);
    assert_eq!(select_gpu(adapters(), s, ALL).unwrap(), 0);
}

#[test]
fn builders_set_one_field_each() {
    let s = WgpuSelector::new()
        .with_index(2)
        .with_name("NVidia")
        .with_device_type(DeviceType::DiscreteGpu)
        .with_backends(BackendSet { bits: 2 });
    assert_eq!(s.index, Some(2));
    assert_eq!(s.name_substring.as_deref(), Some("nvidia"));
    assert_eq!(s.device_type, Some(DeviceType::DiscreteGpu));
    assert_eq!(s.backends, Some(BackendSet { bits: 2 }));
}

#[test]
fn convenience_selectors() {
    assert_eq!(WgpuSelector::discrete_gpu().device_type, Some(DeviceType::DiscreteGpu));
    assert_eq!(WgpuSelector::discrete_gpu().index, None);
    assert_eq!(WgpuSelector::integrated_gpu().device_type, Some(DeviceType::IntegratedGpu));
    assert_eq!(WgpuSelector::first_available().index, Some(0));
    assert_eq!(WgpuSelector::first_available().device_type, None);
}

#[test]
fn name_matching_ignores_case() {
    let s = WgpuSelector::new().with_name("GEFORCE");
    let list = adapters();
    assert!(!s.matches(&list[0]));
    assert!(s.matches(&list[1]));
    let upper = adapter("NVIDIA GEFORCE", DeviceType::Other);
    assert!(s.matches(&upper));
}

#[test]
fn name_must_be_a_substring() {
    let s = WgpuSelector::new().with_name("radeon");
    for a in adapters().iter() {
        assert!(!s.matches(a));
    }
}

#[test]
fn device_type_must_match() {
    let s = WgpuSelector::new().with_device_type(DeviceType::Cpu);
    let list = adapters();
    assert!(!s.matches(&list[0]));
    assert!(!s.matches(&list[1]));
    assert!(s.matches(&list[2]));
}

#[test]
fn select_first_match_without_index() {
    let s = WgpuSelector::discrete_gpu();
    assert_eq!(select_gpu(adapters(), s, ALL).unwrap(), 1);
    let s = WgpuSelector::new().with_name("llvm");
    assert_eq!(select_gpu(adapters(), s, ALL).unwrap(), 2);
}

#[test]
fn select_no_adapters() {
    match select_gpu(Vec::new(), WgpuSelector::new(), BackendSet { bits: 4 }) {
        Err(SelectionError::NoAdaptersAvailable { requested_backends }) => {
            assert_eq!(requested_backends, BackendSet { bits: 4 })
        }
        other => panic!("unexpected {:?}", other),
    }
}

#[test]
fn select_index_out_of_bounds() {
    match select_gpu(adapters(), WgpuSelector::new().with_index(3), ALL) {
        Err(SelectionError::IndexOutOfBounds { index, available }) => {
            assert_eq!(index, 3);
            assert_eq!(available, 3);
        }
        other => panic!("unexpected {:?}", other),
    }
}

#[test]
fn select_index_mismatch_names_the_adapter() {
    let s = WgpuSelector::new().with_index(0).with_device_type(DeviceType::DiscreteGpu);
    match select_gpu(adapters(), s, ALL) {
        Err(SelectionError::IndexMismatch { index, name }) => {
            assert_eq!(index, 0);
            assert_eq!(name, "Intel(R) UHD Graphics 620");
        }
        other => panic!("unexpected {:?}", other),
    }
}

#[test]
fn select_index_that_matches() {
    let s = WgpuSelector::new().with_index(1).with_name("rtx");
    assert_eq!(select_gpu(adapters(), s, ALL).unwrap(), 1);
}

#[test]
fn select_no_match_lists_all_adapters() {
    let s = WgpuSelector::new().with_device_type(DeviceType::VirtualGpu);
    match select_gpu(adapters(), s, ALL) {
        Err(SelectionError::NoMatchingAdapter { criteria, available_adapters }) => {
            assert_eq!(criteria.device_type, Some(DeviceType::VirtualGpu));
            assert_eq!(available_adapters.len(), 3);
            assert_eq!(available_adapters[2].name, "llvmpipe (LLVM 15.0.7, 256 bits)");
        }
        other => panic!("unexpected {:?}", other),
    }
}

#[test]
fn requested_backends_default_to_all() {
    assert_eq!(WgpuSelector::new().requested_backends(ALL), ALL);
    let s = WgpuSelector::new().with_backends(BackendSet { bits: 1 });
    assert_eq!(s.requested_backends(ALL), BackendSet { bits: 1 });
}

#[test]
fn fallback_selection_fails_the_choice() {
    let requested = Ok(1);
    let fallback = Err(SelectionError::IndexOutOfBounds { index: 0, available: 0 });
    assert!(matches!(
        choose_adapter(requested, fallback),
        Err(SelectionError::IndexOutOfBounds { index: 0, available: 0 })
    ));
}

#[test]
fn requested_selection_wins_over_fallback() {
    assert_eq!(choose_adapter(Ok(2), Ok(0)).unwrap(), AdapterChoice::Requested(2));
    let failed = Err(SelectionError::IndexMismatch { index: 1, name: "x".to_string() });
    assert_eq!(choose_adapter(failed, Ok(0)).unwrap(), AdapterChoice::Fallback(0));
}

#[test]
fn selector_from_configuration() {
    let configured = config::GpuSelector {
        index: None,
        name_substring: Some("intel".to_string()),
        device_type: Some(config::DeviceType::IntegratedGpu),
    };
    let renderer_selector = renderer::GpuSelector::from(configured);
    assert_eq!(renderer_selector.device_type, Some(DeviceType::IntegratedGpu));
    let s = WgpuSelector::from(renderer_selector);
    assert_eq!(s.index, None);
    assert_eq!(s.name_substring.as_deref(), Some("intel"));
    assert_eq!(s.backends, None);
    assert_eq!(select_gpu(adapters(), s, ALL).unwrap(), 0);
}

#[test]
fn device_types_convert_by_name() {
    assert_eq!(DeviceType::from(config::DeviceType::Other), DeviceType::Other);
    assert_eq!(DeviceType::from(config::DeviceType::DiscreteGpu), DeviceType::DiscreteGpu);
    assert_eq!(DeviceType::from(config::DeviceType::VirtualGpu), DeviceType::VirtualGpu);
    assert_eq!(DeviceType::from(config::DeviceType::Cpu), DeviceType::Cpu);
    assert_eq!(config::DeviceType::default(), config::DeviceType::IntegratedGpu);
}

#[test]
fn configured_name_matches_without_regard_to_case() {
    let configured = config::GpuSelector {
        index: None,
        name_substring: Some("NVIDIA".to_string()),
        device_type: None,
    };
    let s = WgpuSelector::from(renderer::GpuSelector::from(configured));
    assert_eq!(s.name_substring.as_deref(), Some("NVIDIA"));
    assert!(s.matches(&adapter("NVIDIA GeForce RTX 3060", DeviceType::DiscreteGpu)));
    assert!(!s.matches(&adapter("Intel(R) UHD Graphics 620", DeviceType::IntegratedGpu)));
    assert_eq!(select_gpu(adapters(), s, ALL).unwrap(), 1);
}
