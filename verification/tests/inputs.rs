use syphon::input_fast::{shader_source, SHADER_HEAD, SHADER_TAIL};
use syphon::runtime::{DIRECTORY_CLASS, METAL_CLIENT_CLASS, NAME_KEY, SERVER_CLASS, UUID_KEY};
use syphon::input_fast::{
    converter_uniform_bytes, converter_uniforms, detect_optimal_workgroup_size, dispatch_size, row_stride, ConverterBuffers,
    InputFormat, SyphonWgpuInputFast,
};
use syphon::{ServerInfo, SyphonError, SyphonWgpuInput, SyphonWgpuInputOptimized};

#[test]
fn input_connect_records_server() {
    let mut input: SyphonWgpuInput<u32, &str> = SyphonWgpuInput::new();
    assert!(!input.is_connected(|_c: &u32| true));
    assert_eq!(input.server_name(), None);
    assert_eq!(input.connect("Arena", Ok(7)), Ok(()));
    assert_eq!(input.server_name(), Some("Arena"));
    assert_eq!(input.client(), Some(&7));
    assert!(input.is_connected(|c: &u32| *c == 7));
    assert!(!input.is_connected(|_c: &u32| false));
}

#[test]
fn input_failed_connect_changes_nothing() {
    let mut input: SyphonWgpuInput<u32, &str> = SyphonWgpuInput::new();
    input.connect("A", Ok(1)).unwrap();
    let r = input.connect("B", Err(SyphonError::ServerNotFound("B".to_string())));
    assert_eq!(r, Err(SyphonError::ServerNotFound("B".to_string())));
    assert_eq!(input.server_name(), Some("A"));
    assert_eq!(input.client(), Some(&1));
}

#[test]
fn input_connect_by_info_uses_display_name() {
    let mut input: SyphonWgpuInput<u32, &str> = SyphonWgpuInput::new();
    let info = ServerInfo {
        name: String::new(),
        uuid: "u1".to_string(),
        app_name: "Simple Server".to_string(),
        bundle_id: String::new(),
    };
    input.connect_by_info(&info, Ok(3)).unwrap();
    assert_eq!(input.server_name(), Some("Simple Server"));
}

#[test]
fn input_texture_is_handed_out_each_frame() {
    let mut input: SyphonWgpuInput<u32, &str> = SyphonWgpuInput::new();
    assert!(input.needs_new_texture(640, 480));
    input.install_texture("tex", 640, 480);
    assert!(!input.needs_new_texture(640, 480));
    assert!(input.needs_new_texture(640, 481));
    assert_eq!(input.texture(), Some(&"tex"));
    assert_eq!(input.take_texture(), Some("tex"));
    assert!(input.needs_new_texture(640, 480));
    assert_eq!(input.take_texture(), None);
}

#[test]
fn input_disconnect_clears_everything() {
    let mut input: SyphonWgpuInput<u32, &str> = SyphonWgpuInput::new();
    input.connect("A", Ok(1)).unwrap();
    input.install_texture("tex", 1, 1);
    input.disconnect();
    assert_eq!(input.server_name(), None);
    assert_eq!(input.client(), None);
    assert_eq!(input.texture(), None);
    assert!(!input.is_connected(|_c: &u32| true));
}

#[test]
fn optimized_input_wraps_plain_input() {
    let mut input: SyphonWgpuInputOptimized<u32, &str> = SyphonWgpuInputOptimized::new();
    assert_eq!(input.frame_count(), 0);
    assert!(!input.is_connected(|_c: &u32| true));
    input.connect("Arena", Ok(5)).unwrap();
    assert!(input.is_connected(|_c: &u32| true));
    assert_eq!(input.server_name(), Some("Arena"));
    input.input_mut().install_texture("t", 2, 2);
    assert_eq!(input.input_mut().take_texture(), Some("t"));
    input.disconnect();
    assert_eq!(input.server_name(), None);
    assert_eq!(input.frame_count(), 0);
}

#[test]
fn fast_input_state() {
    let mut input: SyphonWgpuInputFast<u32, u8, &str> = SyphonWgpuInputFast::new();
    assert_eq!(input.format(), InputFormat::Rgba);
    input.set_format(InputFormat::Bgra);
    assert_eq!(input.format(), InputFormat::Bgra);
    assert!(!input.is_connected());
    assert!(input.receiver_parts().is_none());
    input.connect("Arena", Ok((9, 1))).unwrap();
    assert!(input.is_connected());
    assert_eq!(input.server_name(), Some("Arena"));
    assert!(input.receiver_parts().is_some());
    assert_eq!(input.frame_count(), 0);
    assert_eq!(input.record_frame(1), None);
    assert_eq!(input.frame_count(), 1);
    assert_eq!(input.record_frame(2), None);
    assert_eq!(input.record_frame(5), Some(3));
    assert_eq!(input.record_frame(0), None);
    input.disconnect();
    assert!(!input.is_connected());
    assert_eq!(input.format(), InputFormat::Bgra);
    assert_eq!(
        input.connect("B", Err(SyphonError::NotAvailable)),
        Err(SyphonError::NotAvailable)
    );
    assert!(!input.is_connected());
}

#[test]
fn fast_input_bgra_texture_pool() {
    let mut input: SyphonWgpuInputFast<u32, u8, &str> = SyphonWgpuInputFast::new();
    assert!(input.needs_new_texture(4, 4));
    input.install_texture("bgra", 4, 4);
    assert!(!input.needs_new_texture(4, 4));
    assert_eq!(input.take_texture(), Some("bgra"));
    assert!(input.needs_new_texture(4, 4));
}

#[test]
fn converter_sizes() {
    assert_eq!(detect_optimal_workgroup_size(), (8, 8));
    assert_eq!(row_stride(7680 * 1080, 1080), 7680);
    assert_eq!(row_stride(10, 3), 3);
    assert_eq!(dispatch_size(1920, 1080, (8, 8)), (240, 135));
    assert_eq!(dispatch_size(1921, 1, (8, 8)), (241, 1));
    assert_eq!(dispatch_size(0, 0, (8, 8)), (0, 0));
    assert_eq!(converter_uniforms(640, 480, 2560), [640, 480, 2560, 0]);
}

#[test]
fn uniform_bytes_are_native_words() {
    let u = converter_uniforms(0x0102_0304, 2, 3);
    let bytes = converter_uniform_bytes(0x0102_0304, 2, 3);
    let mut expected = Vec::new();
    for w in u {
        expected.extend_from_slice(&w.to_ne_bytes());
    }
    assert_eq!(bytes, expected);
    assert_eq!(bytes.len(), 16);
    assert_ne!(bytes[0..4].to_vec(), vec![0u8, 0, 0, 0]);
}

#[test]
fn converter_buffers_are_rebuilt_when_needed() {
    let mut b: ConverterBuffers<&str, &str> = ConverterBuffers::new();
    assert!(b.needs_rebuild(4, 4));
    assert_eq!(b.buffer_plan(4, 4, 10), Some(64));
    assert_eq!(b.buffer_plan(4, 4, 100), Some(100));
    b.install("in", "out", 4, 4);
    assert!(!b.needs_rebuild(4, 4));
    assert!(b.needs_rebuild(5, 4));
    assert_eq!(b.buffer_plan(4, 4, 100), None);
    assert_eq!(b.buffer_plan(4, 5, 10), Some(80));
    assert_eq!(b.resources(), Some((&"in", &"out")));
    assert_eq!(b.take_output(), Some("out"));
    assert_eq!(b.resources(), None);
    assert_eq!(b.buffer_plan(4, 4, 10), Some(64));
}

#[test]
fn connected_receivers_always_have_a_server_name() {
    let mut plain: SyphonWgpuInput<u32, &str> = SyphonWgpuInput::new();
    plain.install_texture("t", 8, 8);
    plain.connect("A", Ok(1)).unwrap();
    let _ = plain.take_texture();
    plain.connect("B", Err(SyphonError::NotAvailable)).unwrap_err();
    assert!(plain.is_connected(|_c: &u32| true));
    assert_eq!(plain.server_name(), Some("A"));

    let mut optimized: SyphonWgpuInputOptimized<u32, &str> = SyphonWgpuInputOptimized::new();
    optimized.connect("C", Ok(2)).unwrap();
    optimized.input_mut().install_texture("t", 1, 1);
    assert!(optimized.is_connected(|_c: &u32| true));
    assert_eq!(optimized.server_name(), Some("C"));
    optimized.disconnect();
    assert!(!optimized.is_connected(|_c: &u32| true));

    let mut fast: SyphonWgpuInputFast<u32, u8, &str> = SyphonWgpuInputFast::new();
    fast.connect("D", Ok((3, 0))).unwrap();
    fast.set_format(InputFormat::Bgra);
    let _ = fast.record_frame(1);
    assert!(fast.is_connected());
    assert_eq!(fast.server_name(), Some("D"));
}

#[test]
fn connecting_keeps_the_texture_size() {
    let mut fast: SyphonWgpuInputFast<u32, u8, &str> = SyphonWgpuInputFast::new();
    assert!(fast.needs_new_texture(0, 0));
    fast.install_texture("bgra", 16, 9);
    fast.connect("A", Ok((1, 1))).unwrap();
    assert!(!fast.needs_new_texture(16, 9));
    assert!(fast.needs_new_texture(0, 0));

    let mut optimized: SyphonWgpuInputOptimized<u32, &str> = SyphonWgpuInputOptimized::new();
    optimized.input_mut().install_texture("t", 16, 9);
    optimized.connect("B", Ok(1)).unwrap();
    assert!(!optimized.input_mut().needs_new_texture(16, 9));
}

#[test]
fn shader_source_carries_the_workgroup_size() {
    let s = shader_source((8, 8));
    assert!(s.starts_with(SHADER_HEAD));
    assert!(s.ends_with(SHADER_TAIL));
    assert!(s.contains("@compute @workgroup_size(8, 8)\n"));
    assert_eq!(s.len(), SHADER_HEAD.len() + "8, 8".len() + SHADER_TAIL.len());
    let t = shader_source((16, 4));
    assert!(t.contains("@workgroup_size(16, 4)"));
    assert!(t.contains("textureStore(output_texture"));
}

#[test]
fn runtime_names_of_syphon() {
    assert_eq!(SERVER_CLASS, "SyphonServer");
    assert_eq!(DIRECTORY_CLASS, "SyphonServerDirectory");
    assert_eq!(METAL_CLIENT_CLASS, "SyphonMetalClient");
    assert_eq!(NAME_KEY, "SyphonServerDescriptionNameKey");
    assert_eq!(UUID_KEY, "SyphonServerDescriptionUUIDKey");
}
