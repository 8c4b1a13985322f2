//! Shader source selection: the two interchangeable fragment variants
//! (raycast compositing and maximum-intensity projection) and the single
//! vertex stage, each named by the resource path the host loads.

use vstd::prelude::*;

verus! {

/// The resource path of the vertex stage source.
pub open spec fn vertex_path_spec() -> Seq<char> {
    "shaders/vertex_shader.glsl"@
}

/// The resource path of the fragment stage source for a variant flag:
/// maximum-intensity projection when the flag is set, raycast compositing
/// otherwise.
pub open spec fn fragment_path_spec(mip_shader: bool) -> Seq<char> {
    if mip_shader {
        "shaders/mip_shader.glsl"@
    } else {
        "shaders/raycaster.glsl"@
    }
}

/// Selects the vertex shader source path (the same for both variants).
pub fn vertex_shader_path() -> (r: &'static str)
    ensures
        r@ == vertex_path_spec(),
{
    "shaders/vertex_shader.glsl"
}

/// Selects the fragment shader source path from the variant flag, read
/// fresh each frame so the variant can be toggled at runtime.
pub fn fragment_shader_path(mip_shader: bool) -> (r: &'static str)
    ensures
        r@ == fragment_path_spec(mip_shader),
{
    if mip_shader {
        "shaders/mip_shader.glsl"
    } else {
        "shaders/raycaster.glsl"
    }
}

/// Toggling the variant flag changes which fragment source is requested:
/// the two variants name distinct resources.
pub proof fn lemma_variant_selects_distinct_sources()
    ensures
        fragment_path_spec(true) != fragment_path_spec(false),
{
    reveal_strlit("shaders/mip_shader.glsl");
    reveal_strlit("shaders/raycaster.glsl");
    assert(fragment_path_spec(true).len() != fragment_path_spec(false).len());
}

} // verus!
