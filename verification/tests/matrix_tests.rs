// The per-frame matrices are computed by the host with nalgebra-glm from the
// camera parameters this library fixes (fov 45 degrees, near 0.1, far 100.0,
// aspect from the guarded viewport height). These tests hold that computation
// to the standard perspective and look-at properties.

use volume_raycaster::frame::effective_viewport_height;

const TOLERANCE: f32 = 1e-5;

#[test]
fn projection_entries_match_standard_formula() {
    let fov_radians = 45.0f32.to_radians();
    let aspect = 1.0f32;
    let projection = nalgebra_glm::perspective(aspect, fov_radians, 0.1, 100.0);
    let focal = 1.0f32 / (fov_radians / 2.0).tan();
    assert!((projection[(0, 0)] - focal / aspect).abs() < TOLERANCE);
    assert!((projection[(1, 1)] - focal).abs() < TOLERANCE);
}

#[test]
fn look_at_basis_is_orthonormal() {
    let eye = nalgebra::Vector3::new(0.0f32, 0.0, -2.5);
    let target = nalgebra::Vector3::new(0.0f32, 0.0, 0.0);
    let up = nalgebra::Vector3::new(0.0f32, 1.0, 0.0);
    let view = nalgebra_glm::look_at(&eye, &target, &up);

    let rows: [[f32; 3]; 3] = [
        [view[(0, 0)], view[(0, 1)], view[(0, 2)]],
        [view[(1, 0)], view[(1, 1)], view[(1, 2)]],
        [view[(2, 0)], view[(2, 1)], view[(2, 2)]],
    ];
    for i in 0..3 {
        let norm = (rows[i][0] * rows[i][0] + rows[i][1] * rows[i][1] + rows[i][2] * rows[i][2])
            .sqrt();
        assert!((norm - 1.0).abs() < TOLERANCE);
        for j in 0..3 {
            if i != j {
                let dot = rows[i][0] * rows[j][0] + rows[i][1] * rows[j][1]
                    + rows[i][2] * rows[j][2];
                assert!(dot.abs() < TOLERANCE);
            }
        }
    }
}

#[test]
fn zero_viewport_height_gives_finite_projection() {
    let width: u32 = 350;
    let height: u32 = 0;
    let guarded = effective_viewport_height(height);
    assert!(guarded >= 1);
    let aspect = width as f32 / guarded as f32;
    let projection = nalgebra_glm::perspective(aspect, 45.0f32.to_radians(), 0.1, 100.0);
    for value in projection.iter() {
        assert!(value.is_finite());
    }
}
