use clogs::render::Instance;

fn b(v: f32) -> u32 {
    v.to_bits()
}

#[test]
fn new_instance_has_position_and_defaults() {
    let inst = Instance::new(b(10.0), b(20.0));
    assert_eq!(inst.x(), b(10.0));
    assert_eq!(inst.y(), b(20.0));
    assert_eq!(inst.rotation(), b(0.0));
    assert_eq!(inst.scale(), b(1.0));
    assert_eq!(inst.alpha(), b(1.0));
    assert_eq!(inst.color_multiplier(), (b(1.0), b(1.0), b(1.0)));
    assert_eq!(inst.z(), 0);
}

#[test]
fn position_setters_round_trip_exact_bits() {
    let mut inst = Instance::new(b(0.0), b(0.0));
    inst.set_x(b(-1.25));
    inst.set_y(b(3.5e7));
    assert_eq!(inst.x(), b(-1.25));
    assert_eq!(inst.y(), b(3.5e7));
    // even a negative zero keeps its exact bit pattern
    inst.set_x(b(-0.0));
    assert_eq!(inst.x(), b(-0.0));
    assert_ne!(inst.x(), b(0.0));
}

#[test]
fn rotation_scale_alpha_round_trip() {
    let mut inst = Instance::new(b(1.0), b(2.0));
    inst.set_rotation(b(1.5708));
    inst.set_scale(b(0.5));
    inst.set_alpha(b(0.25));
    assert_eq!(inst.rotation(), b(1.5708));
    assert_eq!(inst.scale(), b(0.5));
    assert_eq!(inst.alpha(), b(0.25));
    // the other fields are untouched
    assert_eq!(inst.x(), b(1.0));
    assert_eq!(inst.y(), b(2.0));
}

#[test]
fn color_multiplier_round_trip() {
    let mut inst = Instance::new(b(0.0), b(0.0));
    inst.set_color_multiplier(b(0.5), b(0.25), b(0.125));
    assert_eq!(inst.color_multiplier(), (b(0.5), b(0.25), b(0.125)));
}

#[test]
fn depth_boundary_zero_reads_back_255() {
    let mut inst = Instance::new(b(0.0), b(0.0));
    inst.set_z(0);
    assert_eq!(inst.z(), 255);
}

#[test]
fn depth_boundary_255_reads_back_zero() {
    let mut inst = Instance::new(b(0.0), b(0.0));
    inst.set_z(255);
    assert_eq!(inst.z(), 0);
}

#[test]
fn depth_mid_value_is_reflected() {
    let mut inst = Instance::new(b(0.0), b(0.0));
    inst.set_z(100);
    assert_eq!(inst.z(), 155);
}
