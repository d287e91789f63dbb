use frameloop::bundle::{RecordStep, SwapchainContext};
use frameloop::error::Error;
use frameloop::setup::{
    check_device_extensions, check_required_extensions, check_required_layers, contains_name,
    find_missing_name, instance_config, pick_physical_device, pick_queue_families,
    unique_queue_indices, PhysicalDeviceInfo,
};
use frameloop::context::QueueFamilyIndices;
use frameloop::swapchain::{Extent2d, SurfaceFormat};
use frameloop::util::cchar_to_string;

fn names(list: &[&str]) -> Vec<String> {
    list.iter().map(|s| s.to_string()).collect()
}

#[test]
fn required_layers_present_pass() {
    let required = names(&["VK_LAYER_KHRONOS_validation"]);
    let available = names(&["VK_LAYER_A", "VK_LAYER_KHRONOS_validation"]);
    assert!(check_required_layers(&required, &available).is_ok());
}

#[test]
fn missing_layer_is_named() {
    let required = names(&["VK_LAYER_A", "VK_LAYER_B"]);
    let available = names(&["VK_LAYER_A"]);
    match check_required_layers(&required, &available) {
        Err(Error::Other(msg)) => assert_eq!(msg, "cannot find layer: VK_LAYER_B"),
        _ => panic!("a missing layer must be reported"),
    }
}

#[test]
fn missing_extension_is_named() {
    let required = names(&["VK_KHR_surface", "VK_EXT_debug_utils"]);
    let available = names(&["VK_KHR_surface"]);
    match check_required_extensions(&required, &available) {
        Err(Error::Other(msg)) => assert_eq!(msg, "cannot find extension: VK_EXT_debug_utils"),
        _ => panic!("a missing extension must be reported"),
    }
    assert!(check_required_extensions(&names(&[]), &available).is_ok());
}

#[test]
fn name_lookup_is_exact() {
    let available = names(&["VK_KHR_swapchain"]);
    assert!(contains_name(&"VK_KHR_swapchain".to_string(), &available));
    assert!(!contains_name(&"VK_KHR_swap".to_string(), &available));
    assert_eq!(find_missing_name(&names(&["VK_KHR_swapchain"]), &available), None);
    assert_eq!(find_missing_name(&names(&["a", "b"]), &available), Some(0));
}

#[test]
fn debug_instance_adds_validation_and_debug_utils() {
    let c = instance_config(true, names(&["layer0"]), names(&["ext0", "ext1"]));
    assert_eq!(c.layers, names(&["layer0", "VK_LAYER_KHRONOS_validation"]));
    assert_eq!(c.extensions, names(&["ext0", "ext1", "VK_EXT_debug_utils"]));
}

#[test]
fn release_instance_enables_no_layers() {
    let c = instance_config(false, names(&["layer0"]), names(&["ext0"]));
    assert!(c.layers.is_empty());
    assert_eq!(c.extensions, names(&["ext0"]));
}

#[test]
fn physical_device_pick_takes_first_qualifying() {
    let required = names(&["VK_KHR_swapchain"]);
    let devices = vec![
        // integrated: wrong class
        PhysicalDeviceInfo { device_type: 1, extensions: names(&["VK_KHR_swapchain"]) },
        // virtual: wrong class too, only the discrete class counts
        PhysicalDeviceInfo { device_type: 3, extensions: names(&["VK_KHR_swapchain"]) },
        // discrete but without the extension
        PhysicalDeviceInfo { device_type: 2, extensions: names(&[]) },
        // discrete with the extension: chosen
        PhysicalDeviceInfo { device_type: 2, extensions: names(&["a", "VK_KHR_swapchain"]) },
        PhysicalDeviceInfo { device_type: 2, extensions: names(&["VK_KHR_swapchain"]) },
    ];
    assert_eq!(pick_physical_device(&devices, &required).unwrap(), 3);
}

#[test]
fn no_discrete_gpu_is_an_error() {
    let required = names(&["VK_KHR_swapchain"]);
    // an integrated and a virtual device: neither is discrete-class
    let devices = vec![
        PhysicalDeviceInfo { device_type: 1, extensions: names(&["VK_KHR_swapchain"]) },
        PhysicalDeviceInfo { device_type: 3, extensions: names(&["VK_KHR_swapchain"]) },
    ];
    match pick_physical_device(&devices, &required) {
        Err(Error::Other(msg)) => assert_eq!(msg, "no discrete GPU found"),
        _ => panic!("no qualifying device must be an error"),
    }
    assert!(check_device_extensions(&required, &names(&["VK_KHR_swapchain"])));
    assert!(!check_device_extensions(&required, &names(&["other"])));
}

#[test]
fn queue_families_are_first_matches() {
    // family 0: transfer only; family 1: graphics; family 2: graphics too
    let queue_flags = vec![0x4, 0x1 | 0x4, 0x1];
    // presentation is supported from family 2 only
    let present_support = vec![false, false, true];
    let q = pick_queue_families(&queue_flags, &present_support).unwrap();
    assert_eq!(q.graphics, 1);
    assert_eq!(q.present, 2);
}

#[test]
fn missing_graphics_queue_is_an_error() {
    let r = pick_queue_families(&vec![0x4, 0x2], &vec![true, true]);
    match r {
        Err(Error::Other(msg)) => assert_eq!(msg, "graphics queue needed"),
        _ => panic!("no graphics family must be an error"),
    }
}

#[test]
fn missing_present_queue_is_an_error() {
    let r = pick_queue_families(&vec![0x1], &vec![false]);
    match r {
        Err(Error::Other(msg)) => assert_eq!(msg, "present queue needed"),
        _ => panic!("no present family must be an error"),
    }
}

#[test]
fn equal_queue_indices_collapse_to_one() {
    assert_eq!(unique_queue_indices(&QueueFamilyIndices { graphics: 3, present: 3 }), vec![3]);
    assert_eq!(unique_queue_indices(&QueueFamilyIndices { graphics: 3, present: 5 }), vec![3, 5]);
}

#[test]
fn cchar_names_stop_at_the_terminator() {
    let raw: Vec<i8> = vec![86, 75, 95, 65, 0, 88, 88];
    let name = cchar_to_string(&raw);
    assert_eq!(name, vec!['V', 'K', '_', 'A']);
    // no terminator: the whole array is the name
    let raw2: Vec<i8> = vec![97, 98];
    assert_eq!(cchar_to_string(&raw2), vec!['a', 'b']);
    // a leading terminator gives the empty name
    let raw3: Vec<i8> = vec![0, 97];
    assert_eq!(cchar_to_string(&raw3), Vec::<char>::new());
}

#[test]
fn command_recording_is_the_fixed_triangle_pass() {
    let ctx = SwapchainContext {
        swapchain: 100,
        pipeline: 101,
        pipeline_layout: 102,
        render_pass: 103,
        vertex_shader_module: 104,
        fragment_shader_module: 105,
        vertex_buffer: 106,
        vertex_buffer_memory: 107,
        extent: Extent2d { width: 640, height: 480 },
        surface_format: SurfaceFormat { format: 50, color_space: 0 },
    };
    let plan = frameloop::bundle::record_plan(&ctx, 77);
    assert_eq!(
        plan,
        vec![
            RecordStep::Begin,
            RecordStep::BeginRenderPass {
                render_pass: 103,
                framebuffer: 77,
                extent: Extent2d { width: 640, height: 480 },
            },
            RecordStep::BindPipeline(101),
            RecordStep::BindVertexBuffer(106),
            RecordStep::Draw {
                vertex_count: 3,
                instance_count: 1,
                first_vertex: 0,
                first_instance: 0,
            },
            RecordStep::EndRenderPass,
            RecordStep::End,
        ]
    );
}
