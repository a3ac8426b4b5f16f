use wallpaper::frame::{presentation_step, LoopAction};
use wallpaper::gpu::{
    first_supported, on_adapter, on_device, on_formats, start_bring_up, BringUp, BringUpError,
    PresentMode, ShaderEntry,
};

#[test]
fn happy_path_ends_ready_with_matching_config() {
    let st = start_bring_up(1920, 1080);
    let st = on_adapter(st, true);
    let st = on_device(st, true);
    let st = on_formats(st, 3);
    match st {
        BringUp::Ready { config, pipeline } => {
            assert!(config.render_attachment_usage);
            assert_eq!(config.width, 1920);
            assert_eq!(config.height, 1080);
            assert_eq!(config.present_mode, PresentMode::Fifo);
            assert_eq!(config.format_index, 0);
            assert_eq!(pipeline.target_format_index, config.format_index);
            assert_eq!(pipeline.color_target_count, 1);
            assert_eq!(pipeline.bind_group_layout_count, 0);
            assert_eq!(pipeline.push_constant_range_count, 0);
            assert!(!pipeline.has_depth_stencil);
            assert_eq!(pipeline.multisample_count, 1);
            assert_eq!(pipeline.vertex_entry, ShaderEntry::Vertex);
            assert_eq!(pipeline.fragment_entry, ShaderEntry::Fragment);
        }
        other => panic!("bring-up did not finish: {:?}", other),
    }
}

#[test]
fn missing_adapter_fails_cleanly() {
    let st = start_bring_up(1920, 1080);
    let st = on_adapter(st, false);
    assert_eq!(st, BringUp::Failed { error: BringUpError::NoCompatibleAdapter });
    // No GPU object is observable after the failure.
    assert!(!matches!(st, BringUp::Ready { .. }));
}

#[test]
fn rejected_device_request_fails_cleanly() {
    let st = on_device(on_adapter(start_bring_up(800, 600), true), false);
    assert_eq!(st, BringUp::Failed { error: BringUpError::DeviceRequestFailed });
    assert!(!matches!(st, BringUp::Ready { .. }));
}

#[test]
fn empty_format_list_fails_cleanly() {
    let st = on_formats(on_device(on_adapter(start_bring_up(800, 600), true), true), 0);
    assert_eq!(st, BringUp::Failed { error: BringUpError::NoSupportedFormats });
    assert!(!matches!(st, BringUp::Ready { .. }));
}

#[test]
fn the_first_supported_format_is_chosen() {
    let formats = vec![17u32, 4, 9];
    assert_eq!(first_supported(&formats), Some(17));
    let empty: Vec<u32> = Vec::new();
    assert_eq!(first_supported(&empty), None);
}

#[test]
fn shader_entry_names_are_the_well_known_symbols() {
    assert_eq!(ShaderEntry::Vertex.name(), "vs_main");
    assert_eq!(ShaderEntry::Fragment.name(), "fs_main");
}

#[test]
fn every_acquired_frame_is_rendered_with_the_fixed_plan() {
    match presentation_step(true) {
        LoopAction::RenderAndPresent { plan } => {
            assert_eq!(
                (plan.pass.clear.red, plan.pass.clear.green, plan.pass.clear.blue, plan.pass.clear.alpha),
                (0, 255, 0, 255)
            );
            assert!(plan.pass.binds_pipeline);
            assert_eq!(plan.pass.draw.first_vertex, 0);
            assert_eq!(plan.pass.draw.vertex_count, 3);
            assert_eq!(plan.pass.draw.first_instance, 0);
            assert_eq!(plan.pass.draw.instance_count, 1);
        }
        LoopAction::Terminate => panic!("an acquired frame must be rendered"),
    }
}

#[test]
fn failed_acquisition_ends_the_loop() {
    assert_eq!(presentation_step(false), LoopAction::Terminate);
}
