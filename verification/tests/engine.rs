use artificial_horizon::attitude::AnimationState;
use artificial_horizon::attitude::Attitude;
use artificial_horizon::attitude::sample_combined;
use artificial_horizon::attitude::sample_state;
use artificial_horizon::attitude::sample_pitch_only;
use artificial_horizon::attitude::sample_roll_only;
use artificial_horizon::frame::DrawCmd;
use artificial_horizon::frame::DrawColor;
use artificial_horizon::frame::frame_plan;
use artificial_horizon::geometry::Point;
use artificial_horizon::geometry::RollTrig;
use artificial_horizon::geometry::rotate_point;
use artificial_horizon::geometry::triangle_contains;
use artificial_horizon::horizon::HorizonShapes;
use artificial_horizon::horizon::covers_point;
use artificial_horizon::horizon::horizon_shapes;
use artificial_horizon::horizon::pitch_offset_px;
use artificial_horizon::symbology::aircraft_symbol;
use artificial_horizon::symbology::left_marker;
use artificial_horizon::symbology::right_marker;

const TRIG_ONE: f32 = 65536.0;

/// Fixed-point sine/cosine pair of an angle in radians, as the frame driver
/// builds it before calling into the library.
fn trig_from_radians(angle_rad: f32) -> RollTrig {
    let s = (libm::sinf(angle_rad) * TRIG_ONE).round() as i64;
    let c = (libm::cosf(angle_rad) * TRIG_ONE).round() as i64;
    RollTrig::new(s, c).expect("a scaled sine/cosine pair must be accepted")
}

fn roll_trig_from_degrees(roll_deg: f32) -> RollTrig {
    trig_from_radians(roll_deg.to_radians())
}

#[test]
fn rotation_identity_leaves_points_unchanged() {
    let id = RollTrig::new(0, 65536).unwrap();
    let center = Point { x: 120, y: 160 };
    let pts = vec![
        Point { x: 0, y: 0 },
        Point { x: -360, y: 160 },
        Point { x: 840, y: -480 },
        Point { x: 120, y: 160 },
        Point { x: 121, y: 159 },
    ];
    for p in pts {
        assert_eq!(rotate_point(p, center, id), p);
    }
}

#[test]
fn rotation_inverse_returns_within_one_pixel() {
    let center = Point { x: 120, y: 160 };
    let angles = vec![0.7f32, -0.3, 0.5235988, -0.5235988, 3.0];
    let pts = vec![
        Point { x: -360, y: 160 },
        Point { x: 840, y: 800 },
        Point { x: 0, y: 0 },
        Point { x: 239, y: 319 },
    ];
    for a in angles {
        let t = trig_from_radians(a);
        let back = t.negated();
        for p in &pts {
            let once = rotate_point(*p, center, t);
            let twice = rotate_point(once, center, back);
            assert!((twice.x - p.x).abs() <= 1, "x drift at angle {}: {:?} vs {:?}", a, twice, p);
            assert!((twice.y - p.y).abs() <= 1, "y drift at angle {}: {:?} vs {:?}", a, twice, p);
        }
    }
}

#[test]
fn trig_pair_validation_accepts_real_pairs_and_rejects_others() {
    for deg in [-30.0f32, -15.0, 0.0, 15.0, 30.0, 90.0, 180.0] {
        let a = deg.to_radians();
        let s = (libm::sinf(a) * TRIG_ONE).round() as i64;
        let c = (libm::cosf(a) * TRIG_ONE).round() as i64;
        assert!(RollTrig::new(s, c).is_some(), "pair of {} degrees refused", deg);
    }
    assert!(RollTrig::new(0, 0).is_none());
    assert!(RollTrig::new(70000, 0).is_none());
    assert!(RollTrig::new(65536, 65536).is_none());
}

#[test]
fn pitch_offset_scales_and_rounds_to_nearest() {
    assert_eq!(pitch_offset_px(0), 0);
    assert_eq!(pitch_offset_px(1000), 40);
    assert_eq!(pitch_offset_px(-1000), -40);
    assert_eq!(pitch_offset_px(2000), 80);
    assert_eq!(pitch_offset_px(30), 1);
    assert_eq!(pitch_offset_px(-30), -1);
    assert_eq!(pitch_offset_px(10), 0);
}

#[test]
fn phase_transition_roll_to_combined() {
    let mut st = AnimationState { phase: 1, frame_in_phase: 299 };
    st.advance();
    assert_eq!(st, AnimationState { phase: 2, frame_in_phase: 0 });
}

#[test]
fn cyclic_wrap_combined_to_pitch_only() {
    let mut st = AnimationState { phase: 2, frame_in_phase: 399 };
    st.advance();
    assert_eq!(st, AnimationState { phase: 0, frame_in_phase: 0 });
}

#[test]
fn defensive_reset_on_out_of_range_phase() {
    let mut st = AnimationState { phase: 9, frame_in_phase: 123 };
    st.advance();
    assert_eq!(st, AnimationState { phase: 0, frame_in_phase: 0 });
}

#[test]
fn advance_counts_within_a_phase() {
    let mut st = AnimationState::new();
    assert_eq!(st, AnimationState { phase: 0, frame_in_phase: 0 });
    st.advance();
    assert_eq!(st, AnimationState { phase: 0, frame_in_phase: 1 });
    st.advance();
    assert_eq!(st, AnimationState { phase: 0, frame_in_phase: 2 });
}

#[test]
fn overrun_counter_moves_to_next_phase() {
    let mut st = AnimationState { phase: 0, frame_in_phase: 1000 };
    st.advance();
    assert_eq!(st, AnimationState { phase: 1, frame_in_phase: 0 });
}

#[test]
fn full_cycle_returns_to_start() {
    let mut st = AnimationState::new();
    for _ in 0..(300 + 300 + 400) {
        st.advance();
    }
    assert_eq!(st, AnimationState { phase: 0, frame_in_phase: 0 });
}

#[test]
fn phase_boundary_samples_are_level() {
    // At frame 0 of a 300-frame phase the cycle argument is exactly 0.
    let arg = 2.0f32 * core::f32::consts::PI * (0.0f32 / 300.0f32);
    let sin_milli = (libm::sinf(arg) * 1000.0).round() as i32;
    assert_eq!(sin_milli, 0);
    assert_eq!(sample_pitch_only(sin_milli), Attitude { pitch_cdeg: 0, roll_cdeg: 0 });
    assert_eq!(sample_roll_only(sin_milli), Attitude { pitch_cdeg: 0, roll_cdeg: 0 });
}

#[test]
fn samples_scale_to_the_configured_maxima() {
    assert_eq!(sample_pitch_only(1000), Attitude { pitch_cdeg: 2000, roll_cdeg: 0 });
    assert_eq!(sample_pitch_only(-1000), Attitude { pitch_cdeg: -2000, roll_cdeg: 0 });
    assert_eq!(sample_roll_only(-500), Attitude { pitch_cdeg: 0, roll_cdeg: -1500 });
    assert_eq!(sample_combined(250, -750), Attitude { pitch_cdeg: 500, roll_cdeg: -2250 });
}

#[test]
fn sample_state_dispatches_on_the_phase_tag() {
    let pitch_phase = AnimationState { phase: 0, frame_in_phase: 75 };
    assert_eq!(
        sample_state(&pitch_phase, 1000, 250, -750),
        Attitude { pitch_cdeg: 2000, roll_cdeg: 0 },
    );
    let roll_phase = AnimationState { phase: 1, frame_in_phase: 75 };
    assert_eq!(
        sample_state(&roll_phase, 1000, 250, -750),
        Attitude { pitch_cdeg: 0, roll_cdeg: 3000 },
    );
    let combined_phase = AnimationState { phase: 2, frame_in_phase: 75 };
    assert_eq!(
        sample_state(&combined_phase, 1000, 250, -750),
        Attitude { pitch_cdeg: 500, roll_cdeg: -2250 },
    );
    // A corrupted phase samples level, as the fallback phase would at frame 0.
    let corrupted = AnimationState { phase: 9, frame_in_phase: 75 };
    assert_eq!(
        sample_state(&corrupted, 1000, 250, -750),
        Attitude { pitch_cdeg: 0, roll_cdeg: 0 },
    );
}

#[test]
fn level_frame_has_exact_unrotated_shapes() {
    let att = Attitude { pitch_cdeg: 0, roll_cdeg: 0 };
    let sh = horizon_shapes(att, RollTrig::new(0, 65536).unwrap());
    assert_eq!(sh.horizon_left, Point { x: -360, y: 160 });
    assert_eq!(sh.horizon_right, Point { x: 840, y: 160 });
    assert_eq!(sh.sky_left, Point { x: -360, y: -480 });
    assert_eq!(sh.sky_right, Point { x: 840, y: -480 });
    assert_eq!(sh.ground_left, Point { x: -360, y: 800 });
    assert_eq!(sh.ground_right, Point { x: 840, y: 800 });
}

#[test]
fn ten_degrees_pitch_moves_horizon_forty_pixels() {
    let att = Attitude { pitch_cdeg: 1000, roll_cdeg: 0 };
    let sh = horizon_shapes(att, RollTrig::new(0, 65536).unwrap());
    assert_eq!(sh.horizon_left, Point { x: -360, y: 200 });
    assert_eq!(sh.horizon_right, Point { x: 840, y: 200 });
}

fn assert_screen_covered(sh: &HorizonShapes, label: f32) {
    let samples = vec![
        Point { x: 0, y: 0 },
        Point { x: 239, y: 0 },
        Point { x: 0, y: 319 },
        Point { x: 239, y: 319 },
        Point { x: 120, y: 160 },
    ];
    for p in samples {
        assert!(covers_point(sh, p), "pixel {:?} uncovered at roll {} degrees", p, label);
    }
}

#[test]
fn coverage_holds_at_representative_rolls() {
    for roll_deg in [-30.0f32, -15.0, 0.0, 15.0, 30.0] {
        let trig = roll_trig_from_degrees(roll_deg);
        for pitch_cdeg in [-2000i32, 0, 2000] {
            let att = Attitude { pitch_cdeg, roll_cdeg: (roll_deg * 100.0) as i32 };
            let sh = horizon_shapes(att, trig);
            assert_screen_covered(&sh, roll_deg);
        }
    }
}

#[test]
fn triangle_containment_is_exact() {
    let a = Point { x: 0, y: 0 };
    let b = Point { x: 10, y: 0 };
    let c = Point { x: 0, y: 10 };
    assert!(triangle_contains(a, b, c, Point { x: 1, y: 1 }));
    assert!(triangle_contains(a, b, c, Point { x: 0, y: 0 }));
    assert!(triangle_contains(a, b, c, Point { x: 5, y: 5 }));
    assert!(!triangle_contains(a, b, c, Point { x: 6, y: 5 }));
    assert!(!triangle_contains(a, b, c, Point { x: -1, y: 0 }));
}

#[test]
fn frame_plan_draws_background_then_symbology() {
    let att = Attitude { pitch_cdeg: 500, roll_cdeg: 1000 };
    let trig = roll_trig_from_degrees(10.0);
    let sh = horizon_shapes(att, trig);
    let plan = frame_plan(sh);
    assert_eq!(plan.len(), 7);
    assert_eq!(
        plan[0],
        DrawCmd::FillTriangle {
            a: sh.horizon_left,
            b: sh.horizon_right,
            c: sh.sky_right,
            color: DrawColor::Sky,
        },
    );
    assert_eq!(
        plan[1],
        DrawCmd::FillTriangle {
            a: sh.horizon_left,
            b: sh.sky_right,
            c: sh.sky_left,
            color: DrawColor::Sky,
        },
    );
    assert_eq!(
        plan[2],
        DrawCmd::FillTriangle {
            a: sh.horizon_left,
            b: sh.horizon_right,
            c: sh.ground_right,
            color: DrawColor::Ground,
        },
    );
    assert_eq!(
        plan[3],
        DrawCmd::FillTriangle {
            a: sh.horizon_left,
            b: sh.ground_right,
            c: sh.ground_left,
            color: DrawColor::Ground,
        },
    );
    assert_eq!(plan[4], DrawCmd::FillRect { rect: left_marker(), color: DrawColor::White });
    assert_eq!(plan[5], DrawCmd::FillRect { rect: right_marker(), color: DrawColor::White });
    assert_eq!(
        plan[6],
        DrawCmd::FillCircle { circle: aircraft_symbol(), color: DrawColor::White },
    );
}

#[test]
fn symbology_sits_at_fixed_screen_coordinates() {
    let left = left_marker();
    assert_eq!(left.top_left, Point { x: 80, y: 158 });
    assert_eq!((left.width, left.height), (20, 4));
    let right = right_marker();
    assert_eq!(right.top_left, Point { x: 140, y: 158 });
    assert_eq!((right.width, right.height), (20, 4));
    let dot = aircraft_symbol();
    assert_eq!(dot.center, Point { x: 120, y: 160 });
    assert_eq!(dot.radius, 3);
}

#[test]
fn rotated_horizon_tilts_the_expected_way() {
    // A positive roll rotates the world by the negated angle: the right
    // horizon end moves up (smaller y) in screen coordinates.
    let att = Attitude { pitch_cdeg: 0, roll_cdeg: 3000 };
    let sh = horizon_shapes(att, roll_trig_from_degrees(30.0));
    assert!(sh.horizon_right.y < 160);
    assert!(sh.horizon_left.y > 160);
}
