use clogs::render::{GpuCmd, Render, RenderError, Vertex};
use clogs::MAX_MESH_INSTANCES;
use lyon::math::point;

fn b(v: f32) -> u32 {
    v.to_bits()
}

fn triangle_vertices() -> Vec<Vertex> {
    vec![
        Vertex { pos: point(0.0, 0.0), red: 255, green: 0, blue: 0, alpha: b(1.0) },
        Vertex { pos: point(1.0, 0.0), red: 255, green: 0, blue: 0, alpha: b(1.0) },
        Vertex { pos: point(0.0, 1.0), red: 255, green: 0, blue: 0, alpha: b(1.0) },
    ]
}

#[test]
fn upload_buffers_returns_dense_handles() {
    let mut r = Render::new();
    let m0 = r.upload_buffers(triangle_vertices(), vec![0, 1, 2]).unwrap();
    let m1 = r.upload_buffers(triangle_vertices(), vec![0, 1, 2]).unwrap();
    assert_eq!(m0.index(), 0);
    assert_eq!(m1.index(), 1);
    assert_eq!(r.mesh_count(), 2);
    assert_eq!(r.instance_count(m0).unwrap(), 0);
    assert!(!r.is_dirty(m0).unwrap());
    assert!(!r.is_bound(m0).unwrap());
}

#[test]
fn upload_buffers_rejects_out_of_bounds_index() {
    let mut r = Render::new();
    let result = r.upload_buffers(triangle_vertices(), vec![0, 1, 3]);
    assert_eq!(result.unwrap_err(), RenderError::InvalidGeometry);
    // the registry is untouched
    assert_eq!(r.mesh_count(), 0);
}

#[test]
fn add_instance_reads_back_position_and_defaults() {
    let mut r = Render::new();
    let m = r.upload_buffers(triangle_vertices(), vec![0, 1, 2]).unwrap();
    let idx = r.add_instance(m, b(10.0), b(20.0)).unwrap();
    assert_eq!(idx, 0);
    assert_eq!(r.get_x(m, idx).unwrap(), b(10.0));
    assert_eq!(r.get_y(m, idx).unwrap(), b(20.0));
    assert_eq!(r.get_rotation(m, idx).unwrap(), b(0.0));
    assert_eq!(r.get_scale(m, idx).unwrap(), b(1.0));
    assert_eq!(r.get_alpha(m, idx).unwrap(), b(1.0));
    let idx2 = r.add_instance(m, b(1.0), b(2.0)).unwrap();
    assert_eq!(idx2, 1);
    assert_eq!(r.instance_count(m).unwrap(), 2);
}

#[test]
fn depth_round_trip_through_mesh_api() {
    let mut r = Render::new();
    let m = r.upload_buffers(triangle_vertices(), vec![0, 1, 2]).unwrap();
    let idx = r.add_instance(m, b(0.0), b(0.0)).unwrap();
    r.set_z(m, idx, 0).unwrap();
    assert_eq!(r.get_z(m, idx).unwrap(), 255);
    r.set_z(m, idx, 255).unwrap();
    assert_eq!(r.get_z(m, idx).unwrap(), 0);
}

#[test]
fn invalid_references_are_reported_by_every_accessor() {
    let mut donor = Render::new();
    donor.upload_buffers(triangle_vertices(), vec![0, 1, 2]).unwrap();
    let stale = donor.upload_buffers(triangle_vertices(), vec![0, 1, 2]).unwrap();

    let mut r = Render::new();
    let m = r.upload_buffers(triangle_vertices(), vec![0, 1, 2]).unwrap();
    r.add_instance(m, b(0.0), b(0.0)).unwrap();

    // `stale` names slot 1, which does not exist in `r`
    assert_eq!(r.add_instance(stale, b(0.0), b(0.0)).unwrap_err(), RenderError::InvalidReference);
    assert_eq!(r.get_x(stale, 0).unwrap_err(), RenderError::InvalidReference);
    assert_eq!(r.get_y(stale, 0).unwrap_err(), RenderError::InvalidReference);
    assert_eq!(r.get_z(stale, 0).unwrap_err(), RenderError::InvalidReference);
    assert_eq!(r.set_x(stale, 0, b(1.0)).unwrap_err(), RenderError::InvalidReference);
    assert_eq!(r.instance_count(stale).unwrap_err(), RenderError::InvalidReference);

    // a valid mesh with an instance index past the end
    assert_eq!(r.get_x(m, 1).unwrap_err(), RenderError::InvalidReference);
    assert_eq!(r.set_x(m, 1, b(1.0)).unwrap_err(), RenderError::InvalidReference);
    assert_eq!(r.set_y(m, 1, b(1.0)).unwrap_err(), RenderError::InvalidReference);
    assert_eq!(r.set_z(m, 1, 7).unwrap_err(), RenderError::InvalidReference);
    assert_eq!(r.set_rotation(m, 1, b(1.0)).unwrap_err(), RenderError::InvalidReference);
    assert_eq!(r.set_scale(m, 1, b(1.0)).unwrap_err(), RenderError::InvalidReference);
    assert_eq!(r.set_alpha(m, 1, b(1.0)).unwrap_err(), RenderError::InvalidReference);
    assert_eq!(
        r.set_color_multiplier(m, 1, b(1.0), b(1.0), b(1.0)).unwrap_err(),
        RenderError::InvalidReference
    );
    assert_eq!(r.get_rotation(m, 1).unwrap_err(), RenderError::InvalidReference);
    assert_eq!(r.get_scale(m, 1).unwrap_err(), RenderError::InvalidReference);
    assert_eq!(r.get_alpha(m, 1).unwrap_err(), RenderError::InvalidReference);
    assert_eq!(r.get_color_multiplier(m, 1).unwrap_err(), RenderError::InvalidReference);

    // nothing was corrupted
    assert_eq!(r.get_x(m, 0).unwrap(), b(0.0));
    assert_eq!(r.instance_count(m).unwrap(), 1);
}

#[test]
fn every_field_write_marks_the_mesh_dirty() {
    let mut r = Render::new();
    let m = r.upload_buffers(triangle_vertices(), vec![0, 1, 2]).unwrap();
    let idx = r.add_instance(m, b(0.0), b(0.0)).unwrap();
    assert!(r.is_dirty(m).unwrap());

    let writes: Vec<fn(&mut Render, clogs::render::Mesh, usize)> = vec![
        |r, m, i| r.set_x(m, i, 1).map(|_| ()).unwrap(),
        |r, m, i| r.set_y(m, i, 1).map(|_| ()).unwrap(),
        |r, m, i| r.set_z(m, i, 1).map(|_| ()).unwrap(),
        |r, m, i| r.set_rotation(m, i, 1).map(|_| ()).unwrap(),
        |r, m, i| r.set_scale(m, i, 1).map(|_| ()).unwrap(),
        |r, m, i| r.set_alpha(m, i, 1).map(|_| ()).unwrap(),
        |r, m, i| r.set_color_multiplier(m, i, 1, 2, 3).map(|_| ()).unwrap(),
    ];
    for write in writes {
        // render a frame to clear the flag, then dirty it again
        r.render_frame().unwrap();
        assert!(!r.is_dirty(m).unwrap());
        write(&mut r, m, idx);
        assert!(r.is_dirty(m).unwrap());
    }
}

#[test]
fn rendering_preserves_instance_fields() {
    let mut r = Render::new();
    let m = r.upload_buffers(triangle_vertices(), vec![0, 1, 2]).unwrap();
    let idx = r.add_instance(m, b(10.0), b(20.0)).unwrap();
    r.set_rotation(m, idx, b(0.75)).unwrap();
    r.set_scale(m, idx, b(2.0)).unwrap();
    r.set_z(m, idx, 9).unwrap();
    r.set_color_multiplier(m, idx, b(0.5), b(0.5), b(0.5)).unwrap();
    r.set_alpha(m, idx, b(0.125)).unwrap();
    let before = r.instance_data(m).unwrap().clone();
    r.render_frame().unwrap();
    assert!(!r.is_dirty(m).unwrap());
    let after = r.instance_data(m).unwrap().clone();
    assert_eq!(before, after);
    assert_eq!(r.get_rotation(m, idx).unwrap(), b(0.75));
    assert_eq!(r.get_z(m, idx).unwrap(), 255 - 9);
}

#[test]
fn frame_plan_skips_meshes_without_instances() {
    let mut r = Render::new();
    let m0 = r.upload_buffers(triangle_vertices(), vec![0, 1, 2]).unwrap();
    let m1 = r.upload_buffers(triangle_vertices(), vec![0, 1, 2]).unwrap();
    let m2 = r.upload_buffers(triangle_vertices(), vec![0, 1, 2]).unwrap();
    r.add_instance(m0, b(0.0), b(0.0)).unwrap();
    r.add_instance(m2, b(0.0), b(0.0)).unwrap();
    r.add_instance(m2, b(1.0), b(1.0)).unwrap();
    let _ = m1;

    let plan = r.render_frame().unwrap();
    let draws: Vec<(usize, usize, usize)> = plan
        .commands
        .iter()
        .filter_map(|c| match c {
            GpuCmd::Draw { mesh, index_count, instance_count } => {
                Some((*mesh, *index_count, *instance_count))
            }
            _ => None,
        })
        .collect();
    // one draw per populated mesh, in registry order, never for the empty one
    assert_eq!(draws, vec![(0, 3, 1), (2, 3, 2)]);
}

#[test]
fn mesh_handles_can_be_looked_up_by_slot() {
    let mut r = Render::new();
    let m = r.upload_buffers(triangle_vertices(), vec![0, 1, 2]).unwrap();
    assert_eq!(r.mesh_handle(0).unwrap(), m);
    assert_eq!(r.mesh_handle(1).unwrap_err(), RenderError::InvalidReference);
}

#[test]
fn empty_registry_renders_no_commands() {
    let mut r = Render::new();
    let plan = r.render_frame().unwrap();
    assert!(plan.commands.is_empty());
}

#[test]
fn bindings_are_created_once_and_uploads_only_when_dirty() {
    let mut r = Render::new();
    let m = r.upload_buffers(triangle_vertices(), vec![0, 1, 2]).unwrap();
    r.add_instance(m, b(0.0), b(0.0)).unwrap();

    let first = r.render_frame().unwrap();
    assert_eq!(
        first.commands,
        vec![
            GpuCmd::CreateBindings { mesh: 0 },
            GpuCmd::UploadInstances { mesh: 0 },
            GpuCmd::Draw { mesh: 0, index_count: 3, instance_count: 1 },
        ]
    );
    assert!(r.is_bound(m).unwrap());

    // a clean second frame binds nothing and uploads nothing
    let second = r.render_frame().unwrap();
    assert_eq!(
        second.commands,
        vec![GpuCmd::Draw { mesh: 0, index_count: 3, instance_count: 1 }]
    );

    // a field write makes the next frame stream the instances again
    r.set_x(m, 0, b(5.0)).unwrap();
    let third = r.render_frame().unwrap();
    assert_eq!(
        third.commands,
        vec![
            GpuCmd::UploadInstances { mesh: 0 },
            GpuCmd::Draw { mesh: 0, index_count: 3, instance_count: 1 },
        ]
    );
}

#[test]
fn frame_plan_carries_the_camera() {
    let mut r = Render::new();
    assert_eq!(r.camera_pan(), (b(0.0), b(0.0)));
    assert_eq!(r.camera_zoom(), b(1.0));
    r.set_camera_pos(b(4.0), b(-2.0));
    r.set_camera_zoom(b(3.0));
    let plan = r.render_frame().unwrap();
    assert_eq!((plan.pan_x, plan.pan_y), (b(4.0), b(-2.0)));
    assert_eq!(plan.zoom, b(3.0));
}

#[test]
fn exceeding_capacity_fails_the_next_frame() {
    let mut r = Render::new();
    let m = r.upload_buffers(triangle_vertices(), vec![0, 1, 2]).unwrap();
    for _ in 0..MAX_MESH_INSTANCES + 1 {
        r.add_instance(m, b(0.0), b(0.0)).unwrap();
    }
    assert_eq!(r.render_frame().unwrap_err(), RenderError::CapacityExceeded);
    // the failed frame changed nothing
    assert!(r.is_dirty(m).unwrap());
    assert!(!r.is_bound(m).unwrap());
    assert_eq!(r.instance_count(m).unwrap(), MAX_MESH_INSTANCES + 1);
}
