use shapes::driver::{Event, FrameLoopDriver, FRAME_INTERVAL_NS};
use shapes::fixed::{FIXED_NEG_ONE, FIXED_ONE};
use shapes::geometry::{cube, gradient_cube, triangle, GeometryDescriptor, Vertex};
use shapes::matrix::{compose_transform, identity_mat, scale_mat, x_rot_mat, y_rot_mat, z_rot_mat, Mat4};
use shapes::phase::{AnimationState, PHASE_STEP, TWO_PI_UNITS};
use shapes::shading::{fragment_color, ShadingRule};

#[test]
fn phase_starts_at_zero_and_advances_by_one_step() {
    let mut st = AnimationState::new();
    assert_eq!(st.units(), 0);
    st.advance();
    assert_eq!(st.units(), PHASE_STEP);
    st.advance();
    assert_eq!(st.units(), 2 * PHASE_STEP);
}

#[test]
fn phase_wraps_to_zero_past_a_full_turn() {
    let mut st = AnimationState::new();
    for _ in 0..628 {
        st.advance();
    }
    assert_eq!(st.units(), 62_800_000);
    assert!(st.units() <= TWO_PI_UNITS);
    st.advance();
    assert_eq!(st.units(), 0);
}

#[test]
fn phase_wraps_after_ceil_of_remaining_distance() {
    // Start five ticks in, then apply the rule exactly
    // ceil((TWO_PI_UNITS - t0) / PHASE_STEP) more times: the result must lie
    // in [0, PHASE_STEP).
    let mut st = AnimationState::new();
    for _ in 0..5 {
        st.advance();
    }
    let t0 = st.units() as u64;
    let d = TWO_PI_UNITS as u64 - t0;
    let step = PHASE_STEP as u64;
    assert_ne!(d % step, 0);
    let n = (d + step - 1) / step;
    for _ in 0..n {
        st.advance();
    }
    assert!(st.units() < PHASE_STEP);
    assert_eq!(st.units(), 0);
}

#[test]
fn six_hundred_twenty_nine_ticks_wrap_the_phase() {
    // Starting at phase zero, after exactly 629 ticks the phase must have
    // wrapped back to zero at least once.
    let mut driver = FrameLoopDriver::new(600_000, ShadingRule::FixedColor);
    let mut wrapped: u32 = 0;
    let mut last = 0u32;
    for _ in 0..629 {
        let t = driver.tick().expect("a running driver yields a frame");
        if t < last {
            wrapped += 1;
        }
        last = t;
    }
    assert!(wrapped >= 1);
    assert_eq!(driver.phase_units(), 0);
}

#[test]
fn zero_angle_rotations_and_unit_scale_are_identity() {
    let id = identity_mat();
    assert_eq!(x_rot_mat(FIXED_ONE, 0), id);
    assert_eq!(y_rot_mat(FIXED_ONE, 0), id);
    assert_eq!(z_rot_mat(FIXED_ONE, 0), id);
    assert_eq!(scale_mat(FIXED_ONE), id);
}

#[test]
fn rotation_matrices_place_the_trigonometric_values() {
    // A quarter turn: cosine zero, sine one. Each rotation fixes its own
    // axis and carries the next axis onto the third, right-handedly.
    let rx = x_rot_mat(0, FIXED_ONE);
    assert_eq!(rx.c0r0, FIXED_ONE);
    assert_eq!(rx.c1r1, 0);
    assert_eq!(rx.c1r2, FIXED_ONE);
    assert_eq!(rx.c2r1, FIXED_NEG_ONE);
    assert_eq!(rx.c2r2, 0);
    assert_eq!(rx.c3r3, FIXED_ONE);

    let ry = y_rot_mat(0, FIXED_ONE);
    assert_eq!(ry.c0r0, 0);
    assert_eq!(ry.c0r2, FIXED_NEG_ONE);
    assert_eq!(ry.c2r0, FIXED_ONE);
    assert_eq!(ry.c2r2, 0);
    assert_eq!(ry.c1r1, FIXED_ONE);

    let rz = z_rot_mat(0, FIXED_ONE);
    assert_eq!(rz.c0r0, 0);
    assert_eq!(rz.c0r1, FIXED_ONE);
    assert_eq!(rz.c1r0, FIXED_NEG_ONE);
    assert_eq!(rz.c1r1, 0);
    assert_eq!(rz.c2r2, FIXED_ONE);

    let sc = scale_mat(600_000);
    assert_eq!(sc.c0r0, 600_000);
    assert_eq!(sc.c1r1, 600_000);
    assert_eq!(sc.c2r2, 600_000);
    assert_eq!(sc.c3r3, FIXED_ONE);
}

#[test]
fn composer_is_idempotent_on_identical_arguments() {
    let a = compose_transform(540_302, 841_471, 600_000);
    let b = compose_transform(540_302, 841_471, 600_000);
    assert_eq!(a, b);
    assert_eq!(a.m1, b.m1);
    assert_eq!(a.m2, b.m2);
    assert_eq!(a.m3, b.m3);
    assert_eq!(a.m4, b.m4);
}

#[test]
fn composed_transform_is_not_the_zero_matrix() {
    // Multiply the four matrices of one frame in their composition order and
    // check that the product is not the zero matrix: its homogeneous entry
    // is the fourth power of FIXED_ONE.
    let t = compose_transform(540_302, 841_471, 600_000);
    let arr = |m: &Mat4| -> [[i128; 4]; 4] {
        [
            [m.c0r0 as i128, m.c0r1 as i128, m.c0r2 as i128, m.c0r3 as i128],
            [m.c1r0 as i128, m.c1r1 as i128, m.c1r2 as i128, m.c1r3 as i128],
            [m.c2r0 as i128, m.c2r1 as i128, m.c2r2 as i128, m.c2r3 as i128],
            [m.c3r0 as i128, m.c3r1 as i128, m.c3r2 as i128, m.c3r3 as i128],
        ]
    };
    let mul = |a: [[i128; 4]; 4], b: [[i128; 4]; 4]| -> [[i128; 4]; 4] {
        let mut r = [[0i128; 4]; 4];
        for col in 0..4 {
            for row in 0..4 {
                let mut sum = 0i128;
                for k in 0..4 {
                    sum += a[k][row] * b[col][k];
                }
                r[col][row] = sum;
            }
        }
        r
    };
    let m = mul(arr(&t.m1), mul(arr(&t.m2), mul(arr(&t.m3), arr(&t.m4))));
    let one = FIXED_ONE as i128;
    assert_eq!(m[3][3], one * one * one * one);
    let mut all_zero = true;
    for col in 0..4 {
        for row in 0..4 {
            if m[col][row] != 0 {
                all_zero = false;
            }
        }
    }
    assert!(!all_zero);
}

#[test]
fn cube_descriptor_holds_its_invariant() {
    let c = cube();
    assert_eq!(c.vertices.len(), 8);
    assert_eq!(c.indices.len(), 36);
    assert_eq!(c.indices.len() % 3, 0);
    let normals = c.normals.as_ref().expect("the cube carries face normals");
    assert_eq!(normals.len(), 6);
    for &i in c.indices.iter() {
        assert!((i as usize) < c.vertices.len());
    }
    assert!(c.well_formed());
    assert_eq!(c.vertices[0], Vertex::new(FIXED_NEG_ONE, FIXED_NEG_ONE, FIXED_NEG_ONE));
    assert_eq!(c.vertices[6], Vertex::new(FIXED_ONE, FIXED_ONE, FIXED_ONE));
    assert_eq!(&c.indices[0..3], &[0u16, 1, 3][..]);
    assert_eq!(&c.indices[33..36], &[0u16, 5, 1][..]);
    assert_eq!(normals[0], Vertex::new(0, 0, FIXED_ONE));
    assert_eq!(normals[5], Vertex::new(0, FIXED_NEG_ONE, 0));
}

#[test]
fn gradient_cube_descriptor_holds_its_invariant() {
    let c = gradient_cube();
    assert_eq!(c.vertices.len(), 24);
    assert_eq!(c.indices.len(), 36);
    assert!(c.normals.is_none());
    assert!(c.well_formed());
    for f in 0..6u16 {
        let b = 6 * f as usize;
        assert_eq!(
            &c.indices[b..b + 6],
            &[4 * f, 4 * f + 1, 4 * f + 2, 4 * f, 4 * f + 2, 4 * f + 3][..],
        );
    }
    for &i in c.indices.iter() {
        assert!((i as usize) < c.vertices.len());
    }
}

#[test]
fn triangle_descriptor_holds_its_invariant() {
    let t = triangle();
    assert_eq!(t.vertices.len(), 3);
    assert_eq!(t.indices.len(), 0);
    assert!(t.normals.is_none());
    assert!(t.well_formed());
    assert_eq!(t.vertices[2], Vertex::new(0, FIXED_ONE, 0));
}

#[test]
fn well_formed_rejects_a_ragged_index_list() {
    let d = GeometryDescriptor {
        vertices: vec![Vertex::new(0, 0, 0), Vertex::new(FIXED_ONE, 0, 0)],
        normals: None,
        indices: vec![0, 1, 0, 1],
    };
    assert!(!d.well_formed());
}

#[test]
fn well_formed_rejects_an_out_of_range_index() {
    let d = GeometryDescriptor {
        vertices: vec![Vertex::new(0, 0, 0), Vertex::new(FIXED_ONE, 0, 0)],
        normals: None,
        indices: vec![0, 1, 2],
    };
    assert!(!d.well_formed());
}

#[test]
fn fixed_color_ignores_the_position() {
    let a = fragment_color(&ShadingRule::FixedColor, &Vertex::new(123, -456, 789));
    let b = fragment_color(&ShadingRule::FixedColor, &Vertex::new(0, 0, 0));
    assert_eq!(a, b);
    assert_eq!(a.r, FIXED_ONE);
    assert_eq!(a.g, FIXED_ONE / 5);
    assert_eq!(a.b, FIXED_ONE / 5);
    assert_eq!(a.a, FIXED_ONE);
}

#[test]
fn gradient_color_follows_the_position() {
    let c = fragment_color(
        &ShadingRule::PositionGradient,
        &Vertex::new(FIXED_NEG_ONE, 0, FIXED_ONE),
    );
    assert_eq!(c.r, 0);
    assert_eq!(c.g, FIXED_ONE / 2);
    assert_eq!(c.b, FIXED_ONE);
    assert_eq!(c.a, FIXED_ONE);
}

#[test]
fn new_driver_is_running_at_phase_zero() {
    let driver = FrameLoopDriver::new(600_000, ShadingRule::PositionGradient);
    assert_eq!(driver.phase_units(), 0);
    assert!(driver.is_running());
    assert_eq!(driver.scale(), 600_000);
    assert_eq!(driver.rule(), ShadingRule::PositionGradient);
}

#[test]
fn tick_advances_the_phase_and_yields_it() {
    let mut driver = FrameLoopDriver::new(600_000, ShadingRule::FixedColor);
    assert_eq!(driver.tick(), Some(PHASE_STEP));
    assert_eq!(driver.phase_units(), PHASE_STEP);
    assert_eq!(driver.tick(), Some(2 * PHASE_STEP));
}

#[test]
fn other_events_are_ignored() {
    let mut driver = FrameLoopDriver::new(600_000, ShadingRule::FixedColor);
    driver.tick();
    driver.handle_event(Event::Other);
    assert!(driver.is_running());
    assert_eq!(driver.phase_units(), PHASE_STEP);
}

#[test]
fn close_request_prevents_the_next_frame() {
    // A close request delivered between one frame and the next tick: the
    // driver shuts down, no further frame is issued, and the phase never
    // moves again.
    let mut driver = FrameLoopDriver::new(600_000, ShadingRule::FixedColor);
    assert_eq!(driver.tick(), Some(PHASE_STEP));
    driver.handle_event(Event::CloseRequested);
    assert!(!driver.is_running());
    assert_eq!(driver.tick(), None);
    assert_eq!(driver.phase_units(), PHASE_STEP);
    // Shutting down is terminal: later events do not revive the loop.
    driver.handle_event(Event::Other);
    assert_eq!(driver.tick(), None);
}

#[test]
fn next_deadline_is_one_frame_interval_away() {
    assert_eq!(FrameLoopDriver::next_deadline_ns(0), FRAME_INTERVAL_NS);
    assert_eq!(FrameLoopDriver::next_deadline_ns(1_000), 1_000 + 16_666_667);
}

#[test]
fn frame_transform_uses_the_driver_scale() {
    let driver = FrameLoopDriver::new(600_000, ShadingRule::FixedColor);
    let t = driver.frame_transform(FIXED_ONE, 0);
    assert_eq!(t.m1, identity_mat());
    assert_eq!(t.m2, identity_mat());
    assert_eq!(t.m3, identity_mat());
    assert_eq!(t.m4, scale_mat(600_000));
    assert_eq!(t, compose_transform(FIXED_ONE, 0, 600_000));
}
