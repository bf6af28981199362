use viewer3d::camera::Vec3;
use viewer3d::mesh::{mesh_indices, mesh_vertices};
use viewer3d::session::{Context, IndexKind, Phase, ReleasePlan, Topology};
use viewer3d::shader::GlError;

#[test]
fn drag_sequence_normalizes_the_pixel_delta() {
    let mut s = Context::new(800, 600);
    assert_eq!(s.mousex, None);
    s.mousemove(10, 10, true).unwrap();
    // First pressed event: no previous position, so no movement yet.
    assert_eq!(s.camera.pos, Vec3 { x: 0, y: 0, z: 0 });
    assert_eq!(s.mousex, Some(10));
    assert_eq!(s.mousey, Some(10));
    s.mousemove(12, 14, true).unwrap();
    // Delta (2, 4) normalized by 800x600: (2*4096/800, 4*4096/600) = (10, 27),
    // applied along the identity orientation's axes.
    assert_eq!(s.camera.pos, Vec3 { x: 10, y: 27, z: 0 });
    assert_eq!(s.mousex, Some(12));
    assert_eq!(s.mousey, Some(14));
}

#[test]
fn releasing_the_pointer_clears_the_drag_idempotently() {
    let mut s = Context::new(800, 600);
    s.mousemove(10, 10, true).unwrap();
    s.mousemove(12, 14, true).unwrap();
    s.mousemove(5, 5, false).unwrap();
    assert_eq!(s.mousex, None);
    assert_eq!(s.mousey, None);
    let pos = s.camera.pos;
    s.mousemove(7, 8, false).unwrap();
    assert_eq!(s.mousex, None);
    assert_eq!(s.mousey, None);
    assert_eq!(s.camera.pos, pos);
}

#[test]
fn resize_resets_the_drag_state() {
    let mut s = Context::new(800, 600);
    s.mousemove(10, 10, true).unwrap();
    s.resize(400, 300, false).unwrap();
    assert_eq!(s.width, 400);
    assert_eq!(s.height, 300);
    assert_eq!(s.mousex, None);
    assert_eq!(s.mousey, None);
    let pos = s.camera.pos;
    // A drag started before the resize must not resume with stale coordinates:
    // the first pressed event afterwards moves nothing.
    s.mousemove(50, 50, true).unwrap();
    assert_eq!(s.camera.pos, pos);
    assert_eq!(s.mousex, Some(50));
}

#[test]
fn resize_keeps_or_rebuilds_the_projection_on_request() {
    let mut s = Context::new(800, 600);
    let old_proj = s.camera.proj;
    s.resize(1600, 600, false).unwrap();
    assert_eq!(s.camera.proj, old_proj);
    s.resize(1600, 600, true).unwrap();
    // New aspect 1600/600 in fixed point is 10922; the focal term 10004
    // divided by it gives the new first entry.
    assert_eq!(s.camera.proj.m00, 3751);
    assert_eq!(s.camera.proj.m11, 10004);
}

#[test]
fn failed_init_leaves_no_program_and_render_reports_it() {
    let mut s = Context::new(800, 600);
    let r = s.init(Err(GlError::CompileFailed("bad shader".to_string())), Ok(()));
    assert_eq!(r, Err(GlError::CompileFailed("bad shader".to_string())));
    assert_eq!(s.phase, Phase::Uninitialized);
    assert!(!s.has_program);
    assert_eq!(s.render_plan(), Err(GlError::NoProgram));
}

#[test]
fn mesh_failure_surfaces_after_good_shaders() {
    let mut s = Context::new(800, 600);
    let r = s.init(Ok(()), Err(GlError::ResourceCreationFailed));
    assert_eq!(r, Err(GlError::ResourceCreationFailed));
    assert_eq!(s.phase, Phase::Uninitialized);
    assert!(!s.has_buffers);
}

#[test]
fn successful_init_reaches_ready_and_plans_the_draw() {
    let mut s = Context::new(800, 600);
    assert_eq!(s.init(Ok(()), Ok(())), Ok(()));
    assert_eq!(s.phase, Phase::Ready);
    let d = s.render_plan().unwrap();
    assert_eq!(d.index_count, 6);
    assert_eq!(d.index_kind, IndexKind::UnsignedShort);
    assert_eq!(d.topology, Topology::Triangles);
    assert_eq!(d.attrib_size, 3);
    assert_eq!(d.attrib_stride, 0);
    assert!(!d.attrib_normalized);
}

#[test]
fn second_init_is_refused() {
    let mut s = Context::new(800, 600);
    s.init(Ok(()), Ok(())).unwrap();
    assert_eq!(s.init(Ok(()), Ok(())), Err(GlError::AlreadyInitialized));
    assert_eq!(s.phase, Phase::Ready);
}

#[test]
fn dispose_twice_releases_nothing_the_second_time() {
    let mut s = Context::new(800, 600);
    s.init(Ok(()), Ok(())).unwrap();
    s.mousemove(10, 10, true).unwrap();
    let first = s.dispose();
    assert_eq!(s.mousex, None);
    assert_eq!(s.mousey, None);
    assert_eq!(first, ReleasePlan { release_program: true, release_buffers: true });
    assert_eq!(s.phase, Phase::Disposed);
    let second = s.dispose();
    assert_eq!(second, ReleasePlan { release_program: false, release_buffers: false });
}

#[test]
fn operations_after_dispose_are_finalized_errors() {
    let mut s = Context::new(800, 600);
    s.dispose();
    assert_eq!(s.mousemove(1, 1, true), Err(GlError::SessionFinalized));
    assert_eq!(s.resize(10, 10, false), Err(GlError::SessionFinalized));
    assert_eq!(s.init(Ok(()), Ok(())), Err(GlError::SessionFinalized));
    assert_eq!(s.render_plan(), Err(GlError::SessionFinalized));
}

#[test]
fn mesh_data_is_the_fixed_unit_quad() {
    let idx = mesh_indices();
    assert_eq!(idx, vec![0u16, 1, 3, 2, 3, 1]);
    let verts = mesh_vertices();
    assert_eq!(verts.len(), 12);
    assert_eq!(
        verts,
        vec![
            -2048, -2048, -4096, 4096, -4096, -4096, 4096, 4096, -4096, -4096, 4096, -4096
        ]
    );
}
