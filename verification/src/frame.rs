//! Per-frame build protocol: each frame the pipeline loads shader source,
//! compiles both stages, links a program and, only if every step succeeded,
//! issues the draw. A failed step skips the frame's draw and names the
//! error; the process goes on and the next frame retries. The host performs
//! the outside work (file reads, driver calls) between the steps decided
//! here.

use vstd::prelude::*;

verus! {

/// The two shader stages submitted to the driver's compiler.
#[derive(Clone, Copy, Debug, PartialEq, Eq, Structural)]
pub enum StageKind {
    Vertex,
    Fragment,
}

/// Why a frame's draw was skipped: source unreadable, a stage rejected by
/// the driver's compiler, or the two stages failing to link.
#[derive(Clone, Copy, Debug, PartialEq, Eq, Structural)]
pub enum FrameError {
    Resource,
    Compile(StageKind),
    Link,
}

/// Where the per-frame program build stands. `ReadyToDraw` and `Skipped`
/// are terminal: a frame either reaches its draw or skips it, and the state
/// never persists across frames (the next frame starts over at
/// `LoadSources`).
#[derive(Clone, Copy, Debug, PartialEq, Eq, Structural)]
pub enum BuildPhase {
    LoadSources,
    CompileVertex,
    CompileFragment,
    LinkProgram,
    ReadyToDraw,
    Skipped(FrameError),
}

/// The next phase after the current step reported success or failure.
pub open spec fn advance_spec(phase: BuildPhase, ok: bool) -> BuildPhase {
    match phase {
        BuildPhase::LoadSources => if ok {
            BuildPhase::CompileVertex
        } else {
            BuildPhase::Skipped(FrameError::Resource)
        },
        BuildPhase::CompileVertex => if ok {
            BuildPhase::CompileFragment
        } else {
            BuildPhase::Skipped(FrameError::Compile(StageKind::Vertex))
        },
        BuildPhase::CompileFragment => if ok {
            BuildPhase::LinkProgram
        } else {
            BuildPhase::Skipped(FrameError::Compile(StageKind::Fragment))
        },
        BuildPhase::LinkProgram => if ok {
            BuildPhase::ReadyToDraw
        } else {
            BuildPhase::Skipped(FrameError::Link)
        },
        BuildPhase::ReadyToDraw => BuildPhase::ReadyToDraw,
        BuildPhase::Skipped(e) => BuildPhase::Skipped(e),
    }
}

/// Steps the build protocol on the outcome of the phase's outside work. The
/// host calls this after each load, compile or link attempt; terminal
/// phases are unchanged by further steps.
pub fn advance(phase: BuildPhase, ok: bool) -> (r: BuildPhase)
    ensures
        r == advance_spec(phase, ok),
{
    match phase {
        BuildPhase::LoadSources => if ok {
            BuildPhase::CompileVertex
        } else {
            BuildPhase::Skipped(FrameError::Resource)
        },
        BuildPhase::CompileVertex => if ok {
            BuildPhase::CompileFragment
        } else {
            BuildPhase::Skipped(FrameError::Compile(StageKind::Vertex))
        },
        BuildPhase::CompileFragment => if ok {
            BuildPhase::LinkProgram
        } else {
            BuildPhase::Skipped(FrameError::Compile(StageKind::Fragment))
        },
        BuildPhase::LinkProgram => if ok {
            BuildPhase::ReadyToDraw
        } else {
            BuildPhase::Skipped(FrameError::Link)
        },
        BuildPhase::ReadyToDraw => BuildPhase::ReadyToDraw,
        BuildPhase::Skipped(e) => BuildPhase::Skipped(e),
    }
}

/// Where a frame's build ends, given the outcome of each of its four steps
/// in order: source load, vertex compile, fragment compile, link.
pub open spec fn build_outcome_spec(
    load_ok: bool,
    vertex_ok: bool,
    fragment_ok: bool,
    link_ok: bool,
) -> BuildPhase {
    advance_spec(
        advance_spec(advance_spec(advance_spec(BuildPhase::LoadSources, load_ok), vertex_ok), fragment_ok),
        link_ok,
    )
}

/// A frame draws exactly when all four build steps succeed, and a failed
/// step skips the frame with the error of the first step that failed.
pub proof fn lemma_frame_draws_iff_build_succeeds(
    load_ok: bool,
    vertex_ok: bool,
    fragment_ok: bool,
    link_ok: bool,
)
    ensures
        (build_outcome_spec(load_ok, vertex_ok, fragment_ok, link_ok) == BuildPhase::ReadyToDraw)
            <==> (load_ok && vertex_ok && fragment_ok && link_ok),
        !load_ok ==> build_outcome_spec(load_ok, vertex_ok, fragment_ok, link_ok)
            == BuildPhase::Skipped(FrameError::Resource),
        load_ok && !vertex_ok ==> build_outcome_spec(load_ok, vertex_ok, fragment_ok, link_ok)
            == BuildPhase::Skipped(FrameError::Compile(StageKind::Vertex)),
        load_ok && vertex_ok && !fragment_ok ==> build_outcome_spec(
            load_ok,
            vertex_ok,
            fragment_ok,
            link_ok,
        ) == BuildPhase::Skipped(FrameError::Compile(StageKind::Fragment)),
        load_ok && vertex_ok && fragment_ok && !link_ok ==> build_outcome_spec(
            load_ok,
            vertex_ok,
            fragment_ok,
            link_ok,
        ) == BuildPhase::Skipped(FrameError::Link),
{
}

/// The viewport height used for the aspect-ratio division: a zero height is
/// replaced by one pixel, so the division never sees a zero denominator.
pub fn effective_viewport_height(height: u32) -> (r: u32)
    ensures
        height == 0 ==> r == 1,
        height != 0 ==> r == height,
        r >= 1,
{
    if height == 0 {
        1
    } else {
        height
    }
}

/// Whether the error code the context reports after a draw call should be
/// logged: zero means no pending error, anything else is reported (and is
/// informational only, never fatal).
pub fn gpu_error_is_reportable(code: u32) -> (r: bool)
    ensures
        r == (code != 0),
{
    code != 0
}

} // verus!
