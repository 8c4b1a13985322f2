use volume_raycaster::frame::BuildPhase;
use volume_raycaster::frame::FrameError;
use volume_raycaster::frame::StageKind;
use volume_raycaster::frame::advance;
use volume_raycaster::frame::effective_viewport_height;
use volume_raycaster::frame::gpu_error_is_reportable;
use volume_raycaster::shader::fragment_shader_path;
use volume_raycaster::shader::vertex_shader_path;

fn run_build(load_ok: bool, vertex_ok: bool, fragment_ok: bool, link_ok: bool) -> BuildPhase {
    let mut phase = BuildPhase::LoadSources;
    phase = advance(phase, load_ok);
    phase = advance(phase, vertex_ok);
    phase = advance(phase, fragment_ok);
    phase = advance(phase, link_ok);
    phase
}

#[test]
fn build_reaches_draw_only_when_all_steps_succeed() {
    assert_eq!(run_build(true, true, true, true), BuildPhase::ReadyToDraw);
    assert_eq!(
        run_build(false, true, true, true),
        BuildPhase::Skipped(FrameError::Resource)
    );
    assert_eq!(
        run_build(true, false, true, true),
        BuildPhase::Skipped(FrameError::Compile(StageKind::Vertex))
    );
    assert_eq!(
        run_build(true, true, false, true),
        BuildPhase::Skipped(FrameError::Compile(StageKind::Fragment))
    );
    assert_eq!(
        run_build(true, true, true, false),
        BuildPhase::Skipped(FrameError::Link)
    );
}

#[test]
fn terminal_phases_absorb_further_steps() {
    let skipped = BuildPhase::Skipped(FrameError::Resource);
    assert_eq!(advance(skipped, true), skipped);
    assert_eq!(advance(skipped, false), skipped);
    assert_eq!(advance(BuildPhase::ReadyToDraw, true), BuildPhase::ReadyToDraw);
    assert_eq!(advance(BuildPhase::ReadyToDraw, false), BuildPhase::ReadyToDraw);
}

#[test]
fn shader_variant_selects_fragment_source() {
    assert_eq!(fragment_shader_path(true), "shaders/mip_shader.glsl");
    assert_eq!(fragment_shader_path(false), "shaders/raycaster.glsl");
    assert_ne!(fragment_shader_path(true), fragment_shader_path(false));
    assert_eq!(vertex_shader_path(), "shaders/vertex_shader.glsl");
}

#[test]
fn viewport_height_guard() {
    assert_eq!(effective_viewport_height(0), 1);
    assert_eq!(effective_viewport_height(1), 1);
    assert_eq!(effective_viewport_height(380), 380);
}

#[test]
fn gpu_error_reporting_decision() {
    assert!(!gpu_error_is_reportable(0));
    assert!(gpu_error_is_reportable(1282));
}
