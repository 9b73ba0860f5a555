use hv_altar::gui::{
    scissor_region, GuiRenderState, MeshSize, ScissorRegion, TessCapacity, INITIAL_TESS_INDICES,
    INITIAL_TESS_VERTICES,
};

fn size(vertices: usize, indices: usize) -> MeshSize {
    MeshSize { vertices, indices }
}

fn cap(vertices: usize, indices: usize) -> TessCapacity {
    TessCapacity { vertices, indices }
}

#[test]
fn fresh_state() {
    let s: GuiRenderState<&str> = GuiRenderState::new();
    assert_eq!(s.font_texture_version(), 0);
    assert_eq!(s.capacity(), cap(1024, 1024));
    assert_eq!(INITIAL_TESS_VERTICES, 1024);
    assert_eq!(INITIAL_TESS_INDICES, 1024);
    assert_eq!(s.mesh_count(), 0);
}

#[test]
fn fitting_mesh_needs_no_growth() {
    let c = cap(1024, 1024);
    assert!(c.fits(&size(1024, 1024)));
    assert_eq!(c.grown_to_fit(&size(1024, 1024)), None);
    assert_eq!(c.grown_to_fit(&size(0, 0)), None);
}

#[test]
fn growth_takes_the_larger_of_each_dimension() {
    let c = cap(1024, 1024);
    assert_eq!(c.grown_to_fit(&size(2000, 10)), Some(cap(2000, 1024)));
    assert_eq!(c.grown_to_fit(&size(10, 3000)), Some(cap(1024, 3000)));
    assert_eq!(c.grown_to_fit(&size(1025, 1025)), Some(cap(1025, 1025)));
    assert!(!c.fits(&size(1025, 0)));
}

#[test]
fn growth_settles_after_one_reallocation() {
    let c = cap(1024, 1024);
    let m = size(5000, 7000);
    let grown = c.grown_to_fit(&m).unwrap();
    assert_eq!(grown, cap(5000, 7000));
    assert_eq!(grown.grown_to_fit(&m), None);
}

#[test]
fn font_texture_version_is_recorded() {
    let mut s: GuiRenderState<()> = GuiRenderState::new();
    assert!(!s.font_texture_is_stale(0));
    assert!(s.font_texture_is_stale(3));
    s.font_texture_rebuilt(3);
    assert_eq!(s.font_texture_version(), 3);
    assert!(!s.font_texture_is_stale(3));
    assert!(s.font_texture_is_stale(0));
}

#[test]
fn update_sequence_grows_then_queues() {
    let mut s: GuiRenderState<&str> = GuiRenderState::new();
    let meshes = [("a", size(10, 30)), ("b", size(4000, 6)), ("c", size(100, 2048))];
    for (payload, m) in meshes {
        if let Some(c) = s.tess_growth(&m) {
            s.tess_rebuilt(&m);
            assert_eq!(s.capacity(), c);
        }
        s.push_mesh(m, payload);
    }
    assert_eq!(s.capacity(), cap(4000, 2048));
    assert_eq!(s.mesh_count(), 3);
    assert_eq!(s.mesh(0).payload, "a");
    assert_eq!(s.mesh(1).size, size(4000, 6));
    assert_eq!(s.mesh(2).payload, "c");
    for i in 0..s.mesh_count() {
        assert!(s.capacity().fits(&s.mesh(i).size));
    }
}

#[test]
fn scissor_from_pixel_corners() {
    assert_eq!(
        scissor_region(10, 20, 110, 220),
        ScissorRegion { x: 10, y: 20, width: 100, height: 200 }
    );
    assert_eq!(
        scissor_region(5, 5, 5, 5),
        ScissorRegion { x: 5, y: 5, width: 0, height: 0 }
    );
}
