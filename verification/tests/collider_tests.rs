use botsim::colliders::{
    arc_prism_count, segment_collider, SegmentCollider, TRACK_HEIGHT_NM,
};
use botsim::reflectance::intersection_to_sensor_value;
use botsim::track::{ChainError, Side, Track, TrackSegment, TRACK_HALF_WIDTH_NM};

#[test]
fn caps_and_straights_carry_one_band_box() {
    match segment_collider(TrackSegment::Start) {
        SegmentCollider::Single(b) => {
            assert_eq!(b.half_x_nm, TRACK_HALF_WIDTH_NM);
            assert_eq!(b.half_y_nm, 50_000_000);
            assert_eq!(b.half_z_nm, TRACK_HEIGHT_NM / 2);
            assert_eq!((b.offset_x_nm, b.offset_y_nm), (0, 50_000_000));
        }
        other => panic!("start cap is not a single box: {:?}", other),
    }
    match segment_collider(TrackSegment::Straight { length_nm: 2_000_000_000 }) {
        SegmentCollider::Single(b) => {
            assert_eq!(b.half_y_nm, 1_000_000_000);
            assert_eq!(b.offset_y_nm, 1_000_000_000);
        }
        other => panic!("straight is not a single box: {:?}", other),
    }
}

#[test]
fn corner_carries_two_orthogonal_bars() {
    let seg = TrackSegment::NinetyDegTurn { line_half_length_nm: 500_000_000, side: Side::Right };
    match segment_collider(seg) {
        SegmentCollider::Corner(along, across) => {
            let reach = (500_000_000 + TRACK_HALF_WIDTH_NM) / 2;
            let corner = (500_000_000 - TRACK_HALF_WIDTH_NM) / 2;
            assert_eq!(along.half_y_nm, reach);
            assert_eq!((along.offset_x_nm, along.offset_y_nm), (0, corner));
            assert_eq!(along.rotation_udeg, 0);
            assert_eq!(across.half_y_nm, reach);
            // A right turn pushes the cross bar to the positive x side.
            assert_eq!((across.offset_x_nm, across.offset_y_nm), (corner, corner));
            assert_eq!(across.rotation_udeg, 90_000_000);
        }
        other => panic!("corner is not two bars: {:?}", other),
    }
}

#[test]
fn arc_fan_size_follows_the_sweep() {
    // One prism per four and a half degrees, rounded, at least one.
    assert_eq!(arc_prism_count(90_000_000), 20);
    assert_eq!(arc_prism_count(180_000_000), 40);
    assert_eq!(arc_prism_count(1_000), 1);
    assert_eq!(arc_prism_count(4_500_000), 1);
    let seg = TrackSegment::CircleTurn {
        radius_nm: 1_000_000_000,
        angle_udeg: 90_000_000,
        side: Side::Left,
    };
    match segment_collider(seg) {
        SegmentCollider::Fan(prisms) => {
            assert_eq!(prisms.len(), 20);
            for prism in &prisms {
                assert_eq!(prism.vertices.len(), 8);
                // The band is one track width across and one band height
                // tall; no vertex strays beyond the recentred band.
                for v in &prism.vertices {
                    assert!(v.2 == TRACK_HEIGHT_NM / 2 || v.2 == -TRACK_HEIGHT_NM / 2);
                    assert!(v.0.abs() <= 2 * TRACK_HALF_WIDTH_NM);
                    assert!(v.1.abs() <= 2 * TRACK_HALF_WIDTH_NM);
                }
            }
        }
        other => panic!("arc is not a fan: {:?}", other),
    }
}

#[test]
fn track_builder_accepts_only_legal_chains() {
    let good = vec![
        TrackSegment::Start,
        TrackSegment::Straight { length_nm: 1_000_000_000 },
        TrackSegment::End,
    ];
    let track = Track::new(good).expect("legal chain refused");
    assert_eq!(track.len(), 3);
    assert_eq!(track.origin(0).y_nm, -50_000_000);
    assert_eq!(track.origin(3).y_nm, -50_000_000 + 100_000_000 + 1_000_000_000 + 100_000_000);

    let too_short = vec![TrackSegment::Start];
    let no_start = vec![TrackSegment::Straight { length_nm: 1_000_000_000 }, TrackSegment::End];
    let no_end = vec![TrackSegment::Start, TrackSegment::Straight { length_nm: 1_000_000_000 }];
    let bad_dim = vec![
        TrackSegment::Start,
        TrackSegment::Straight { length_nm: 0 },
        TrackSegment::End,
    ];
    for (chain, fault) in [
        (too_short, ChainError::BadLength),
        (no_start, ChainError::NoStartCap),
        (no_end, ChainError::NoEndCap),
        (bad_dim, ChainError::BadDimensions),
    ] {
        match Track::new(chain) {
            Err(e) => assert_eq!(e, fault),
            Ok(_) => panic!("illegal chain accepted"),
        }
    }
}

#[test]
fn sensor_value_under_a_segment_is_the_reflectance_at_its_line_distance() {
    let straight = TrackSegment::Straight { length_nm: 1_000_000_000 };
    assert_eq!(intersection_to_sensor_value(straight, 0, 123), 0);
    assert_eq!(intersection_to_sensor_value(straight, 5_000_000, 0), 0);
    assert_eq!(intersection_to_sensor_value(straight, 40_000_000, 0), 100);
    assert_eq!(intersection_to_sensor_value(straight, -40_000_000, 0), 100);
    assert_eq!(intersection_to_sensor_value(straight, 20_000_000, 0), 50);
    let arc = TrackSegment::CircleTurn {
        radius_nm: 1_000_000_000,
        angle_udeg: 90_000_000,
        side: Side::Left,
    };
    // On the arc's circle the sensor sits over the line centre.
    assert_eq!(intersection_to_sensor_value(arc, 1_000_000_000, 0), 0);
    assert_eq!(intersection_to_sensor_value(arc, 1_040_000_000, 0), 100);
}
