use gdcef::backend::{ImporterKind, Platform, RenderBackend, SupportReason};
use gdcef::bundle::InfoPlist;
use gdcef::config::{GodotRenderBackend, GpuDeviceIds};
use gdcef::events::{
    ConsoleMessageEvent, DragDataInfo, DragEvent, DrainedEvents, EventQueues, ImeAction,
    ImeCompositionRange, LoadingStateEvent, ime_action,
};
use gdcef::frame::{bgra_to_rgba, cursor_from_code, pack_argb, CursorType, DragState, FrameBuffer};
use gdcef::gpu::{
    choose_copy_queue, find_adapter_ids, find_memory_type_index, AdapterInfo, QueueChoice,
    QueueFamily,
};
use gdcef::lifecycle::{LifecycleError, RuntimeLifecycle};

#[test]
fn driver_names_map_to_backends() {
    assert_eq!(RenderBackend::from_driver_name("vulkan"), RenderBackend::Vulkan);
    assert_eq!(RenderBackend::from_driver_name("d3d12"), RenderBackend::D3D12);
    assert_eq!(RenderBackend::from_driver_name("metal"), RenderBackend::Metal);
    assert_eq!(RenderBackend::from_driver_name("opengl3"), RenderBackend::OpenGL);
    assert_eq!(RenderBackend::from_driver_name("opengl3_es"), RenderBackend::OpenGL);
    assert_eq!(RenderBackend::from_driver_name("Vulkan"), RenderBackend::Unknown);
    assert_eq!(RenderBackend::from_driver_name(""), RenderBackend::Unknown);
}

#[test]
fn importer_selection() {
    assert_eq!(RenderBackend::D3D12.importer_kind(Platform::Windows), Some(ImporterKind::D3D12));
    assert_eq!(RenderBackend::Vulkan.importer_kind(Platform::Windows), Some(ImporterKind::Vulkan));
    assert_eq!(RenderBackend::Metal.importer_kind(Platform::MacOs), Some(ImporterKind::Metal));
    assert_eq!(RenderBackend::Vulkan.importer_kind(Platform::MacOs), None);
    assert_eq!(RenderBackend::OpenGL.importer_kind(Platform::Windows), None);
    assert!(RenderBackend::Vulkan.supports_accelerated_osr(Platform::Linux));
    assert!(!RenderBackend::D3D12.supports_accelerated_osr(Platform::Linux));
    assert_eq!(RenderBackend::Metal.support_diagnostic(Platform::MacOs), SupportReason::Supported);
    assert_eq!(
        RenderBackend::Metal.support_diagnostic(Platform::Windows),
        SupportReason::UnsupportedBackend
    );
    assert_eq!(
        RenderBackend::Vulkan.support_diagnostic(Platform::Other),
        SupportReason::UnsupportedPlatform
    );
    assert!(!SupportReason::UnsupportedBackend.message().is_empty());
    assert_eq!(RenderBackend::D3D12.to_godot_backend(), GodotRenderBackend::Direct3D12);
    assert_eq!(RenderBackend::OpenGL.to_godot_backend(), GodotRenderBackend::Unknown);
}

#[test]
fn copy_queue_preferences() {
    let second_graphics = [QueueFamily { flags: 0x7, queue_count: 4 }];
    assert_eq!(
        choose_copy_queue(&second_graphics),
        QueueChoice { family: 0, index: 1, separate: true }
    );
    let transfer = [
        QueueFamily { flags: 0x7, queue_count: 1 },
        QueueFamily { flags: 0x3, queue_count: 2 },
        QueueFamily { flags: 0x6, queue_count: 1 },
        QueueFamily { flags: 0x4, queue_count: 1 },
    ];
    assert_eq!(choose_copy_queue(&transfer), QueueChoice { family: 2, index: 0, separate: true });
    let none = [QueueFamily { flags: 0x7, queue_count: 1 }, QueueFamily { flags: 0x4, queue_count: 0 }];
    assert_eq!(choose_copy_queue(&none), QueueChoice { family: 0, index: 0, separate: false });
    assert_eq!(choose_copy_queue(&[]), QueueChoice { family: 0, index: 0, separate: false });
}

#[test]
fn memory_type_is_lowest_allowed() {
    assert_eq!(find_memory_type_index(0), None);
    assert_eq!(find_memory_type_index(0b1), Some(0));
    assert_eq!(find_memory_type_index(0b1011000), Some(3));
    assert_eq!(find_memory_type_index(1 << 31), Some(31));
}

#[test]
fn adapter_found_by_luid() {
    let adapters = [
        AdapterInfo { luid_high: 0, luid_low: 5, vendor_id: 0x8086, device_id: 0x46a6 },
        AdapterInfo { luid_high: 1, luid_low: 9, vendor_id: 0x10de, device_id: 0x2684 },
        AdapterInfo { luid_high: 1, luid_low: 9, vendor_id: 0x1, device_id: 0x2 },
    ];
    assert_eq!(find_adapter_ids(&adapters, 1, 9), Some(GpuDeviceIds::new(0x10de, 0x2684)));
    assert_eq!(find_adapter_ids(&adapters, 0, 9), None);
}

#[test]
fn runtime_is_reference_counted() {
    let mut rt = RuntimeLifecycle::new();
    assert!(rt.needs_initialize());
    assert_eq!(rt.retain(false), Err(LifecycleError::InitializationFailed));
    assert_eq!(rt.ref_count(), 0);
    assert!(!rt.is_initialized());
    assert_eq!(rt.retain(true), Ok(()));
    assert!(rt.is_initialized());
    assert!(!rt.needs_initialize());
    assert_eq!(rt.retain(false), Ok(()));
    assert_eq!(rt.ref_count(), 2);
    assert!(!rt.release());
    assert!(rt.release());
    assert!(!rt.is_initialized());
    assert!(!rt.release());
    assert_eq!(rt.ref_count(), 0);
}

#[test]
fn bgra_becomes_rgba() {
    let out = bgra_to_rgba(&[1, 2, 3, 4, 10, 20, 30, 40, 99]);
    assert_eq!(out, vec![3, 2, 1, 4, 30, 20, 10, 40]);
    assert!(bgra_to_rgba(&[]).is_empty());
}

#[test]
fn frame_buffer_dirty_flag() {
    let mut fb = FrameBuffer::new();
    assert!(!fb.dirty);
    fb.update(vec![1, 2, 3, 4], 1, 1);
    assert!(fb.dirty);
    assert_eq!((fb.width, fb.height), (1, 1));
    fb.mark_clean();
    assert!(!fb.dirty);
    assert_eq!(fb.data, vec![1, 2, 3, 4]);
}

#[test]
fn cursor_codes() {
    assert_eq!(cursor_from_code(0), CursorType::Arrow);
    assert_eq!(cursor_from_code(3), CursorType::IBeam);
    assert_eq!(cursor_from_code(2), CursorType::Hand);
    assert_eq!(cursor_from_code(14), CursorType::ResizeNS);
    assert_eq!(cursor_from_code(13), CursorType::ResizeEW);
    assert_eq!(cursor_from_code(16), CursorType::ResizeNESW);
    assert_eq!(cursor_from_code(11), CursorType::ResizeNWSE);
    assert_eq!(cursor_from_code(29), CursorType::Move);
    assert_eq!(cursor_from_code(34), CursorType::Progress);
    assert_eq!(cursor_from_code(38), CursorType::NotAllowed);
    assert_eq!(cursor_from_code(45), CursorType::Arrow);
}

#[test]
fn colour_packing() {
    assert_eq!(pack_argb(0xff, 0x12, 0x34, 0x56), 0xff123456);
    assert_eq!(pack_argb(0, 0, 0, 0), 0);
}

#[test]
fn drain_takes_everything_in_order() {
    let mut q = EventQueues::new();
    q.messages.push("a".to_string());
    q.messages.push("b".to_string());
    q.ime_enables.push(true);
    q.ime_composition_range = Some(ImeCompositionRange { caret_x: 1, caret_y: 2, caret_height: 3 });
    q.loading_states.push(LoadingStateEvent::Started { url: "u".to_string() });
    q.console_messages.push(ConsoleMessageEvent {
        level: 1,
        message: "m".to_string(),
        source: "s".to_string(),
        line: 4,
    });
    let d = DrainedEvents::drain_from(&mut q);
    assert_eq!(d.messages, vec!["a", "b"]);
    assert_eq!(d.ime_enables, vec![true]);
    assert_eq!(d.ime_composition_range.unwrap().caret_height, 3);
    assert_eq!(d.loading_states.len(), 1);
    assert_eq!(d.console_messages[0].line, 4);
    assert!(q.messages.is_empty());
    assert!(q.ime_composition_range.is_none());
    assert!(q.loading_states.is_empty());
}

#[test]
fn ime_latest_request_wins() {
    assert_eq!(ime_action(&[], false), ImeAction::Stay);
    assert_eq!(ime_action(&[false, true], false), ImeAction::Activate);
    assert_eq!(ime_action(&[true, false], true), ImeAction::Deactivate);
    assert_eq!(ime_action(&[true], true), ImeAction::Stay);
}

#[test]
fn drag_events_update_state() {
    let mut s = DragState::idle();
    s.apply(&DragEvent::UpdateCursor { operation: 1 });
    assert_eq!(s, DragState::idle());
    s.apply(&DragEvent::Started { drag_data: DragDataInfo::default(), x: 1, y: 2, allowed_ops: 5 });
    assert!(s.is_dragging_from_browser);
    assert_eq!(s.allowed_ops, 5);
    assert!(!s.is_drag_over);
    s.apply(&DragEvent::Entered { drag_data: DragDataInfo::default(), mask: 3 });
    assert!(s.is_drag_over);
    assert_eq!(DragState::default(), DragState::idle());
}

#[test]
fn framework_plist() {
    let p = InfoPlist::framework("libgdcef.dylib", false);
    assert_eq!(p.cf_bundle_executable, "libgdcef.dylib");
    assert_eq!(p.cf_bundle_package_type, "FMWK");
    assert_eq!(p.ls_environment, vec![("MallocNanoZone".to_string(), "0".to_string())]);
    assert!(p.ls_ui_element.is_none());
    let h = InfoPlist::framework("helper", true);
    assert_eq!(h.ls_ui_element.as_deref(), Some("1"));
}
