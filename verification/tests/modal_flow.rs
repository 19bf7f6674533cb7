use paintfe::modal_flow::{
    dirty_project_names, exit_prompt, onnx_probe_wanted, save_route, tint_channel,
    untitled_dirty_projects, ExitPrompt, ModalAction, ModalFlow, OnnxProbe, ProjectStatus, SaveMemory,
    SaveRoute, WelcomePopup, AnimationOptions, SaveReport, completed_save_report,
};

fn project(name: &str, is_dirty: bool, has_path: bool) -> ProjectStatus {
    ProjectStatus {
        name: name.to_string(),
        is_dirty,
        has_path,
    }
}

#[test]
fn paste_prompt_applies_the_chosen_paste() {
    let mut flow = ModalFlow::new();
    assert_eq!(flow.paste_choice(true, false, false), None);
    flow.pending_paste = true;
    assert_eq!(flow.paste_choice(false, false, false), None);
    assert!(flow.pending_paste);
    assert_eq!(
        flow.paste_choice(true, true, false),
        Some(ModalAction::ApplyPaste { expand_canvas: true })
    );
    assert!(!flow.pending_paste);
    flow.pending_paste = true;
    assert_eq!(
        flow.paste_choice(false, true, false),
        Some(ModalAction::ApplyPaste { expand_canvas: false })
    );
    flow.pending_paste = true;
    assert_eq!(flow.paste_choice(false, false, true), None);
    assert!(!flow.pending_paste);
}

#[test]
fn close_prompt_saves_or_discards_the_project() {
    let mut flow = ModalFlow::new();
    assert!(flow.close_choice(true, false, false).is_empty());
    flow.pending_close_index = Some(2);
    assert_eq!(
        flow.close_choice(true, false, false),
        vec![ModalAction::OpenSaveAs { project_index: 2 }]
    );
    assert_eq!(flow.pending_close_index, None);
    flow.pending_close_index = Some(4);
    assert_eq!(
        flow.close_choice(false, true, false),
        vec![ModalAction::ForceCloseProject { project_index: 4 }]
    );
    flow.pending_close_index = Some(1);
    assert!(flow.close_choice(false, false, false).is_empty());
    assert_eq!(flow.pending_close_index, Some(1));
    assert!(flow.close_choice(false, false, true).is_empty());
    assert_eq!(flow.pending_close_index, None);
}

#[test]
fn exit_without_untitled_projects_closes_the_window() {
    let mut flow = ModalFlow::new();
    flow.pending_exit = true;
    let before = vec![project("a", false, true), project("b", true, false)];
    let after = vec![project("a", false, true), project("b", true, true)];
    assert_eq!(
        flow.exit_choice(true, false, false, &before, &after),
        vec![ModalAction::CloseViewport]
    );
    assert!(flow.force_exit);
    assert!(!flow.pending_exit);
    assert!(!flow.exit_save_active);
}

#[test]
fn exit_save_chain_asks_for_each_untitled_project_then_exits() {
    let mut flow = ModalFlow::new();
    flow.pending_exit = true;
    let after = vec![
        project("a", true, false),
        project("b", false, false),
        project("c", true, true),
        project("d", true, false),
        project("e", true, false),
    ];
    assert_eq!(
        flow.exit_choice(true, false, false, &after, &after),
        vec![ModalAction::OpenSaveAs { project_index: 0 }]
    );
    assert!(flow.exit_save_active);
    assert_eq!(flow.exit_save_queue, vec![3, 4]);
    assert_eq!(
        flow.save_dialog_step(true, true, false),
        vec![ModalAction::OpenSaveAs { project_index: 3 }]
    );
    assert_eq!(
        flow.save_dialog_step(true, true, false),
        vec![ModalAction::OpenSaveAs { project_index: 4 }]
    );
    assert!(!flow.force_exit);
    assert_eq!(
        flow.save_dialog_step(true, true, false),
        vec![ModalAction::CloseViewport]
    );
    assert!(flow.force_exit);
    assert!(!flow.exit_save_active);
    assert!(flow.exit_save_queue.is_empty());
}

#[test]
fn closing_the_save_dialog_abandons_the_exit() {
    let mut flow = ModalFlow::new();
    flow.pending_exit = true;
    let after = vec![project("a", true, false), project("b", true, false)];
    flow.exit_choice(true, false, false, &after, &after);
    assert!(flow.save_dialog_step(true, false, true).is_empty());
    assert!(flow.exit_save_active);
    assert!(flow.save_dialog_step(true, false, false).is_empty());
    assert!(!flow.exit_save_active);
    assert!(flow.exit_save_queue.is_empty());
    assert!(!flow.force_exit);
}

#[test]
fn exit_prompt_buttons() {
    let unsaved = vec![project("a", true, true)];
    let mut flow = ModalFlow::new();
    assert!(flow.exit_choice(false, true, false, &unsaved, &unsaved).is_empty());
    flow.pending_exit = true;
    assert!(flow.exit_choice(false, false, false, &unsaved, &unsaved).is_empty());
    assert!(flow.pending_exit);
    assert_eq!(
        flow.exit_choice(false, true, false, &unsaved, &unsaved),
        vec![ModalAction::CloseViewport]
    );
    assert!(flow.force_exit);
    let mut flow = ModalFlow::new();
    flow.pending_exit = true;
    assert!(flow.exit_choice(false, false, true, &unsaved, &unsaved).is_empty());
    assert!(!flow.pending_exit);
    assert!(!flow.force_exit);
}

#[test]
fn io_counter_reports_the_first_save() {
    let mut flow = ModalFlow::new();
    assert!(flow.begin_io_op());
    assert!(!flow.begin_io_op());
    assert_eq!(flow.pending_io_ops, 2);
}

#[test]
fn modal_open_includes_the_paste_prompt() {
    let mut flow = ModalFlow::new();
    assert!(!flow.any_modal_open(false, false, false, false));
    assert!(flow.any_modal_open(false, true, false, false));
    flow.pending_paste = true;
    assert!(flow.any_modal_open(false, false, false, false));
}

#[test]
fn project_lists_for_the_exit_prompt() {
    let projects = vec![
        project("a", true, false),
        project("b", false, true),
        project("c", true, true),
    ];
    assert_eq!(untitled_dirty_projects(&projects), vec![0]);
    assert_eq!(
        dirty_project_names(&projects),
        vec!["a".to_string(), "c".to_string()]
    );
}

#[test]
fn exit_prompt_lists_three_names_then_counts() {
    assert!(matches!(exit_prompt(vec![]), ExitPrompt::NothingUnsaved));
    match exit_prompt(vec!["a".to_string()]) {
        ExitPrompt::OneUnsaved { name } => assert_eq!(name, "a"),
        _ => panic!("expected one name"),
    }
    let names: Vec<String> = ["a", "b", "c", "d", "e"].iter().map(|s| s.to_string()).collect();
    match exit_prompt(names) {
        ExitPrompt::ManyUnsaved { count, listed, more } => {
            assert_eq!(count, 5);
            assert_eq!(listed, vec!["a".to_string(), "b".to_string(), "c".to_string()]);
            assert_eq!(more, 2);
        }
        _ => panic!("expected many names"),
    }
    match exit_prompt(vec!["a".to_string(), "b".to_string()]) {
        ExitPrompt::ManyUnsaved { count, listed, more } => {
            assert_eq!(count, 2);
            assert_eq!(listed.len(), 2);
            assert_eq!(more, 0);
        }
        _ => panic!("expected many names"),
    }
}

#[test]
fn save_routes() {
    assert_eq!(save_route(3, 3, true, false, false), None);
    assert_eq!(save_route(0, 1, true, true, true), Some(SaveRoute::ProjectFile));
    assert_eq!(save_route(0, 1, false, true, true), Some(SaveRoute::AnimatedImage));
    assert_eq!(save_route(0, 1, false, true, false), Some(SaveRoute::FlatImage));
    assert_eq!(save_route(0, 1, false, false, true), Some(SaveRoute::FlatImage));
}

#[test]
fn onnx_probe_needs_both_paths() {
    assert!(onnx_probe_wanted("/opt/onnx.so", "/models/birefnet.onnx"));
    assert!(!onnx_probe_wanted("", "/models/birefnet.onnx"));
    assert!(!onnx_probe_wanted("/opt/onnx.so", ""));
}

#[test]
fn tint_scales_channels() {
    assert_eq!(tint_channel(255, 40), 40);
    assert_eq!(tint_channel(200, 110), 86);
    assert_eq!(tint_channel(0, 255), 0);
    assert_eq!(tint_channel(255, 255), 255);
    assert_eq!(tint_channel(254, 1), 0);
}

#[test]
fn exit_with_nothing_unsaved_closes_without_a_click() {
    let clean = vec![project("a", false, true), project("b", false, false)];
    let mut flow = ModalFlow::new();
    flow.pending_exit = true;
    assert_eq!(
        flow.exit_choice(false, false, false, &clean, &clean),
        vec![ModalAction::CloseViewport]
    );
    assert!(!flow.pending_exit);
    assert!(flow.force_exit);
    assert!(!flow.exit_save_active);
    let mut flow = ModalFlow::new();
    flow.pending_exit = true;
    assert_eq!(
        flow.exit_choice(false, false, false, &vec![], &vec![]),
        vec![ModalAction::CloseViewport]
    );
}

#[test]
fn onnx_is_probed_only_when_the_paths_change() {
    let mut probe = OnnxProbe {
        last_runtime_path: String::new(),
        last_model_path: String::new(),
        available: false,
    };
    assert!(!probe.paths_seen("", ""));
    assert!(!probe.paths_seen("/opt/onnx.so", ""));
    assert_eq!(probe.last_runtime_path, "/opt/onnx.so");
    assert!(probe.paths_seen("/opt/onnx.so", "/m.onnx"));
    probe.record_probe(true, true);
    assert!(probe.available);
    assert!(!probe.paths_seen("/opt/onnx.so", "/m.onnx"));
    assert!(probe.available);
    assert!(probe.paths_seen("/opt/other.so", "/m.onnx"));
    assert!(!probe.available);
    probe.record_probe(true, false);
    assert!(!probe.available);
}

fn options(fps: f32, gif_colors: u16, gif_dither: bool) -> AnimationOptions<f32, u16, bool> {
    AnimationOptions {
        fps,
        gif_colors,
        gif_dither,
    }
}

#[test]
fn save_memory_follows_the_route() {
    let mut memory = SaveMemory {
        last_animated: false,
        last_webp_lossless: false,
        last_animation_fps: 10.0f32,
        last_gif_colors: 256u16,
        last_gif_dither: false,
        was_animated: false,
        animation_fps: 10.0f32,
    };
    memory.remember(SaveRoute::AnimatedImage, true, options(24.0, 64, true));
    assert!(memory.last_animated && memory.last_webp_lossless && memory.was_animated);
    assert_eq!(memory.last_animation_fps, 24.0);
    assert_eq!(memory.animation_fps, 24.0);
    assert_eq!(memory.last_gif_colors, 64);
    assert!(memory.last_gif_dither);
    memory.remember(SaveRoute::FlatImage, false, options(5.0, 2, false));
    assert!(!memory.last_animated && !memory.last_webp_lossless && memory.was_animated);
    assert_eq!(memory.last_animation_fps, 24.0);
    assert_eq!(memory.animation_fps, 24.0);
    assert_eq!(memory.last_gif_colors, 64);
    assert!(memory.last_gif_dither);
    memory.remember(SaveRoute::ProjectFile, true, options(5.0, 2, false));
    assert!(!memory.last_animated && !memory.last_webp_lossless && memory.was_animated);
    assert_eq!(memory.last_gif_colors, 64);
}

#[test]
fn project_format_saves_report_fixed_options() {
    let chosen = || SaveReport {
        format: "png",
        quality: 80,
        webp_lossless: false,
        tiff_compression: "lzw",
    };
    let project = completed_save_report(SaveRoute::ProjectFile, chosen(), "pfe", "none");
    assert_eq!(project.format, "pfe");
    assert_eq!(project.quality, 100);
    assert!(project.webp_lossless);
    assert_eq!(project.tiff_compression, "none");
    for route in [SaveRoute::AnimatedImage, SaveRoute::FlatImage] {
        let report = completed_save_report(route, chosen(), "pfe", "none");
        assert_eq!(report.format, "png");
        assert_eq!(report.quality, 80);
        assert!(!report.webp_lossless);
        assert_eq!(report.tiff_compression, "lzw");
    }
}

#[test]
fn welcome_popup_is_dismissed_once() {
    let mut popup = WelcomePopup { showing: true };
    assert!(!popup.frame(false));
    assert!(popup.showing);
    assert!(popup.frame(true));
    assert!(!popup.showing);
    assert!(!popup.frame(true));
    assert!(!popup.showing);
}
