use botsim::sensors::BotPosition;
use botsim::track::{
    chain_start, classify_bot_position, compute_next_origin, isqrt, line_distance, sin_cos,
    track_origins, SegmentTransform, Side, TrackSegment, TIP_LENGTH_NM, TRIG_SCALE,
};

#[test]
fn isqrt_matches_small_squares() {
    assert_eq!(isqrt(0), 0);
    assert_eq!(isqrt(1), 1);
    assert_eq!(isqrt(3), 1);
    assert_eq!(isqrt(4), 2);
    assert_eq!(isqrt(15), 3);
    assert_eq!(isqrt(16), 4);
    assert_eq!(isqrt(10_000_000_000_000_000), 100_000_000);
}

#[test]
fn trig_is_exact_on_the_axes() {
    assert_eq!(sin_cos(0), (0, TRIG_SCALE));
    assert_eq!(sin_cos(90_000_000), (TRIG_SCALE, 0));
    assert_eq!(sin_cos(180_000_000), (0, -TRIG_SCALE));
    assert_eq!(sin_cos(270_000_000), (-TRIG_SCALE, 0));
}

#[test]
fn trig_stays_on_the_circle() {
    for a in [1_000_000i64, 30_000_000, 45_000_000, 123_456_789, 359_999_999] {
        let (s, c) = sin_cos(a);
        let norm = s as i128 * s as i128 + c as i128 * c as i128;
        let unit = TRIG_SCALE as i128 * TRIG_SCALE as i128;
        assert!(norm <= unit);
        assert!(norm > unit - 2 * TRIG_SCALE as i128 - 1);
    }
}

#[test]
fn straight_segment_advances_along_heading() {
    let origin = chain_start();
    let next = compute_next_origin(TrackSegment::Straight { length_nm: 2_000_000_000 }, origin);
    // At heading zero the advance is exact.
    assert_eq!(next.x_nm, origin.x_nm);
    assert_eq!(next.y_nm, origin.y_nm + 2_000_000_000);
    assert_eq!(next.heading_udeg, 0);
}

#[test]
fn ninety_degree_turn_bends_the_heading() {
    let origin = chain_start();
    let seg = TrackSegment::NinetyDegTurn { line_half_length_nm: 500_000_000, side: Side::Left };
    let next = compute_next_origin(seg, origin);
    assert_eq!(next.heading_udeg, 90_000_000);
    // Left at heading zero moves forward and to the negative x side.
    assert_eq!(next.x_nm, origin.x_nm - 500_000_000);
    assert_eq!(next.y_nm, origin.y_nm + 500_000_000);
}

#[test]
fn arc_pair_restores_heading() {
    // One circle turn left, chained into the same turn right, comes back
    // to the original heading.
    let origin = SegmentTransform { x_nm: 123_456, y_nm: -9_876, heading_udeg: 77_000_000 };
    let left = TrackSegment::CircleTurn {
        radius_nm: 1_000_000_000,
        angle_udeg: 120_000_000,
        side: Side::Left,
    };
    let right = TrackSegment::CircleTurn {
        radius_nm: 1_000_000_000,
        angle_udeg: 120_000_000,
        side: Side::Right,
    };
    let mid = compute_next_origin(left, origin);
    let back = compute_next_origin(right, mid);
    assert_eq!(back.heading_udeg, origin.heading_udeg);
    // And the first turn did change it.
    assert_eq!(mid.heading_udeg, 197_000_000);
}

#[test]
fn chain_closes_onto_the_end_tip() {
    // A track with every segment variant: the distance from the end cap's
    // origin to the final pose is the tip length within one micrometre.
    let segments = vec![
        TrackSegment::Start,
        TrackSegment::Straight { length_nm: 2_000_000_000 },
        TrackSegment::NinetyDegTurn { line_half_length_nm: 500_000_000, side: Side::Right },
        TrackSegment::CircleTurn {
            radius_nm: 1_000_000_000,
            angle_udeg: 120_000_000,
            side: Side::Left,
        },
        TrackSegment::NinetyDegTurn { line_half_length_nm: 1_000_000_000, side: Side::Left },
        TrackSegment::CircleTurn {
            radius_nm: 2_000_000_000,
            angle_udeg: 60_000_000,
            side: Side::Right,
        },
        TrackSegment::End,
    ];
    let origins = track_origins(&segments);
    assert_eq!(origins.len(), segments.len() + 1);
    let last = origins[origins.len() - 2];
    let tip = origins[origins.len() - 1];
    let dx = (tip.x_nm - last.x_nm) as i128;
    let dy = (tip.y_nm - last.y_nm) as i128;
    let dist2 = dx * dx + dy * dy;
    let lo = (TIP_LENGTH_NM - 1000) as i128;
    let hi = (TIP_LENGTH_NM + 1000) as i128;
    assert!(dist2 >= lo * lo);
    assert!(dist2 <= hi * hi);
}

#[test]
fn line_distance_across_a_straight_is_the_x_offset() {
    let seg = TrackSegment::Straight { length_nm: 1_000_000_000 };
    assert_eq!(line_distance(seg, 0, 500), 0);
    assert_eq!(line_distance(seg, 12_345, 500), 12_345);
    assert_eq!(line_distance(seg, -12_345, 500), -12_345);
    assert_eq!(line_distance(TrackSegment::Start, 7, 0), 7);
    assert_eq!(line_distance(TrackSegment::End, -7, 0), -7);
}

#[test]
fn line_distance_on_an_arc_is_radial() {
    let seg = TrackSegment::CircleTurn {
        radius_nm: 1_000_000_000,
        angle_udeg: 90_000_000,
        side: Side::Left,
    };
    // A point exactly on the arc's circle.
    assert_eq!(line_distance(seg, 1_000_000_000, 0), 0);
    // Outside the circle: positive towards the left turn's side.
    assert_eq!(line_distance(seg, 1_000_001_000, 0), 1000);
    // A 3-4-5 triangle lands at radius 1000 over the arc.
    assert_eq!(line_distance(seg, 600_000_600, 800_000_800), 1000);
}

#[test]
fn line_distance_in_a_corner_splits_on_the_diagonal() {
    let seg = TrackSegment::NinetyDegTurn { line_half_length_nm: 500_000_000, side: Side::Left };
    // Before the corner threshold the distance is the plain x offset.
    assert_eq!(line_distance(seg, 1000, 0), 1000);
    // Far along the bar, the distance is measured from the corner line.
    let ty = (500_000_000 - 100_000_000) / 2;
    assert_eq!(line_distance(seg, 0, ty + 2500), 2500);
}

#[test]
fn body_ray_classification() {
    assert_eq!(classify_bot_position(Some(&TrackSegment::End)), BotPosition::End);
    assert_eq!(
        classify_bot_position(Some(&TrackSegment::Straight { length_nm: 1 })),
        BotPosition::OnTrack
    );
    assert_eq!(classify_bot_position(Some(&TrackSegment::Start)), BotPosition::OnTrack);
    assert_eq!(classify_bot_position(None), BotPosition::Out);
}
