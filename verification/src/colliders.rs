//! Collider synthesis for track segments: a box under each cap and
//! straight, two orthogonal bars under a ninety-degree turn, and a fan of
//! convex prisms under an arc.  Every shape is described in the segment's
//! local frame; the placed shape sits one band height below the ground
//! plane.

use vstd::prelude::*;

verus! {

use crate::motors::floor_div_i128;
use crate::track::{
    spec_sin_cos,
    sin_cos,
    Side,
    TrackSegment,
    MAX_SEGMENT_NM,
    TRACK_HALF_WIDTH_NM,
    TRIG_SCALE,
};

/// Full height of the track band, in nanometres (0.002 m).
pub const TRACK_HEIGHT_NM: i64 = 2_000_000;

/// How deep below the ground plane every collider is placed.
pub const TRACK_DROP_NM: i64 = 2_000_000;

/// A box in the segment's local frame: half-extents, a placement offset
/// and a rotation about the placement point.
#[derive(Clone, Copy, Debug, PartialEq, Eq, Structural)]
pub struct BoxCollider {
    pub half_x_nm: i64,
    pub half_y_nm: i64,
    pub half_z_nm: i64,
    pub offset_x_nm: i64,
    pub offset_y_nm: i64,
    pub rotation_udeg: i64,
}

/// One convex prism of an arc fan: eight vertices around the prism's own
/// centroid, attached at an offset with identity rotation.
#[derive(Clone, Debug, PartialEq, Eq)]
pub struct ConvexPrism {
    pub offset_x_nm: i64,
    pub offset_y_nm: i64,
    pub vertices: Vec<(i64, i64, i64)>,
}

/// The collider of one track segment.
#[derive(Clone, Debug, PartialEq, Eq)]
pub enum SegmentCollider {
    /// A single box: the caps and the straights.
    Single(BoxCollider),
    /// Two orthogonal bars: the ninety-degree turn.
    Corner(BoxCollider, BoxCollider),
    /// A fan of convex prisms: the arc.
    Fan(Vec<ConvexPrism>),
}

/// How many prisms approximate an arc of the given sweep: one per four
/// and a half degrees, rounded, and never none.
pub open spec fn spec_arc_prism_count(angle_udeg: int) -> int {
    let rounded = (2 * angle_udeg + 4_500_000) / 9_000_000;
    if rounded < 1 {
        1
    } else {
        rounded
    }
}

/// How many prisms approximate an arc of the given sweep.
pub fn arc_prism_count(angle_udeg: i64) -> (n: i64)
    requires
        0 <= angle_udeg <= 360_000_000,
    ensures
        n == spec_arc_prism_count(angle_udeg as int),
        1 <= n <= 81,
{
    let n = (2 * angle_udeg + 4_500_000) / 9_000_000;
    proof {
        vstd::arithmetic::div_mod::lemma_div_pos_is_pos(2 * angle_udeg + 4_500_000, 9_000_000);
        vstd::arithmetic::div_mod::lemma_div_is_ordered(
            2 * angle_udeg + 4_500_000,
            724_500_000,
            9_000_000,
        );
    }
    if n < 1 {
        1
    } else {
        n
    }
}

/// A point of the arc band: at sweep `phi` from the arc's start, radius
/// `rho` from the arc's centre (the segment's local origin), mirrored to
/// the turn's side.
pub open spec fn spec_arc_point(rho: int, phi: int, sign: int) -> (int, int) {
    let sc = spec_sin_cos(phi);
    ((sign * rho * sc.1) / (TRIG_SCALE as int), (rho * sc.0) / (TRIG_SCALE as int))
}

/// A point of the arc band.
pub fn arc_point(rho: i64, phi: i64, side: Side) -> (p: (i64, i64))
    requires
        0 <= rho <= 2 * MAX_SEGMENT_NM,
        0 <= phi < 360_000_000,
    ensures
        p.0 == spec_arc_point(rho as int, phi as int, side.spec_sign()).0,
        p.1 == spec_arc_point(rho as int, phi as int, side.spec_sign()).1,
        -2 * MAX_SEGMENT_NM - 1 <= p.0 <= 2 * MAX_SEGMENT_NM,
        -2 * MAX_SEGMENT_NM - 1 <= p.1 <= 2 * MAX_SEGMENT_NM,
{
    let sgn = side.sign();
    let sc = sin_cos(phi);
    proof {
        assert(-2 * MAX_SEGMENT_NM * TRIG_SCALE <= (sgn as int) * (rho as int) * (sc.1 as int)
            <= 2 * MAX_SEGMENT_NM * TRIG_SCALE && -2 * MAX_SEGMENT_NM * TRIG_SCALE <= (
        rho as int) * (sc.0 as int) <= 2 * MAX_SEGMENT_NM * TRIG_SCALE && (sgn as int) * (
        rho as int) * (sc.1 as int) == ((sgn * rho) as int) * (sc.1 as int)) by (nonlinear_arith)
            requires
                sgn == 1i64 || sgn == -1i64,
                0 <= rho <= 2 * MAX_SEGMENT_NM,
                -TRIG_SCALE <= sc.0 <= TRIG_SCALE,
                -TRIG_SCALE <= sc.1 <= TRIG_SCALE,
        ;
    }
    let x = floor_div_i128((sgn as i128) * (rho as i128) * (sc.1 as i128), TRIG_SCALE as i128)
        as i64;
    let y = floor_div_i128((rho as i128) * (sc.0 as i128), TRIG_SCALE as i128) as i64;
    proof {
        crate::track::lemma_scaled_quotient_bound(
            (sgn as int) * (rho as int) * (sc.1 as int),
            2 * MAX_SEGMENT_NM,
        );
        crate::track::lemma_scaled_quotient_bound((rho as int) * (sc.0 as int), 2 * MAX_SEGMENT_NM);
    }
    (x, y)
}

/// The box under a cap or a straight of the given span: as wide as the
/// band, half the span long, centred half the span ahead of the origin.
pub open spec fn spec_band_box(length_nm: int) -> BoxCollider {
    BoxCollider {
        half_x_nm: TRACK_HALF_WIDTH_NM,
        half_y_nm: (length_nm / 2) as i64,
        half_z_nm: (TRACK_HEIGHT_NM / 2) as i64,
        offset_x_nm: 0,
        offset_y_nm: (length_nm / 2) as i64,
        rotation_udeg: 0,
    }
}

/// The two bars under a ninety-degree turn: a bar along the segment and
/// the same bar rotated a quarter turn, both reaching half a band width
/// past the corner, meeting at the corner point.
pub open spec fn spec_corner_boxes(line_half_length_nm: int, side: Side) -> (
    BoxCollider,
    BoxCollider,
) {
    let reach = ((line_half_length_nm + TRACK_HALF_WIDTH_NM) / 2) as i64;
    let corner = ((line_half_length_nm - TRACK_HALF_WIDTH_NM) / 2) as i64;
    let along = BoxCollider {
        half_x_nm: TRACK_HALF_WIDTH_NM,
        half_y_nm: reach,
        half_z_nm: (TRACK_HEIGHT_NM / 2) as i64,
        offset_x_nm: 0,
        offset_y_nm: corner,
        rotation_udeg: 0,
    };
    let across = BoxCollider {
        half_x_nm: TRACK_HALF_WIDTH_NM,
        half_y_nm: reach,
        half_z_nm: (TRACK_HEIGHT_NM / 2) as i64,
        offset_x_nm: (-side.spec_sign() * corner) as i64,
        offset_y_nm: corner,
        rotation_udeg: 90_000_000,
    };
    (along, across)
}

/// Builds one prism of an arc fan: the band corners at the two sweep
/// angles, at both band heights, recentred on their own average.
fn arc_prism(radius_nm: i64, begin_udeg: i64, end_udeg: i64, side: Side) -> (prism: ConvexPrism)
    requires
        TRACK_HALF_WIDTH_NM <= radius_nm <= MAX_SEGMENT_NM,
        0 <= begin_udeg < 360_000_000,
        0 <= end_udeg < 360_000_000,
    ensures
        prism.vertices@.len() == 8,
        ({
            let sign = side.spec_sign();
            let inner = radius_nm - TRACK_HALF_WIDTH_NM;
            let outer = radius_nm + TRACK_HALF_WIDTH_NM;
            let a = spec_arc_point(inner as int, begin_udeg as int, sign);
            let b = spec_arc_point(outer as int, begin_udeg as int, sign);
            let c = spec_arc_point(inner as int, end_udeg as int, sign);
            let d = spec_arc_point(outer as int, end_udeg as int, sign);
            let mid_x = (a.0 + b.0 + c.0 + d.0) / 4;
            let mid_y = (a.1 + b.1 + c.1 + d.1) / 4;
            &&& prism.offset_x_nm == mid_x
            &&& prism.offset_y_nm == mid_y
            &&& forall|j: int|
                0 <= j < 8 ==> {
                    let corner = if j % 4 == 0 {
                        a
                    } else if j % 4 == 1 {
                        b
                    } else if j % 4 == 2 {
                        c
                    } else {
                        d
                    };
                    let z = if j < 4 {
                        -(TRACK_HEIGHT_NM / 2)
                    } else {
                        TRACK_HEIGHT_NM / 2
                    };
                    (#[trigger] prism.vertices@[j]) == ((corner.0 - mid_x) as i64, (corner.1
                        - mid_y) as i64, z as i64)
                }
        }),
{
    let inner = radius_nm - TRACK_HALF_WIDTH_NM;
    let outer = radius_nm + TRACK_HALF_WIDTH_NM;
    let a = arc_point(inner, begin_udeg, side);
    let b = arc_point(outer, begin_udeg, side);
    let c = arc_point(inner, end_udeg, side);
    let d = arc_point(outer, end_udeg, side);
    let mid_x = floor_div_i128(a.0 as i128 + b.0 as i128 + c.0 as i128 + d.0 as i128, 4) as i64;
    let mid_y = floor_div_i128(a.1 as i128 + b.1 as i128 + c.1 as i128 + d.1 as i128, 4) as i64;
    let half_h = TRACK_HEIGHT_NM / 2;
    let mut vertices: Vec<(i64, i64, i64)> = Vec::new();
    vertices.push((a.0 - mid_x, a.1 - mid_y, -half_h));
    vertices.push((b.0 - mid_x, b.1 - mid_y, -half_h));
    vertices.push((c.0 - mid_x, c.1 - mid_y, -half_h));
    vertices.push((d.0 - mid_x, d.1 - mid_y, -half_h));
    vertices.push((a.0 - mid_x, a.1 - mid_y, half_h));
    vertices.push((b.0 - mid_x, b.1 - mid_y, half_h));
    vertices.push((c.0 - mid_x, c.1 - mid_y, half_h));
    vertices.push((d.0 - mid_x, d.1 - mid_y, half_h));
    ConvexPrism { offset_x_nm: mid_x, offset_y_nm: mid_y, vertices }
}

/// The collider under one track segment.
pub fn segment_collider(segment: TrackSegment) -> (collider: SegmentCollider)
    requires
        segment.spec_valid(),
    ensures
        match segment {
            TrackSegment::Start | TrackSegment::End => collider == SegmentCollider::Single(
                spec_band_box(crate::track::TIP_LENGTH_NM as int),
            ),
            TrackSegment::Straight { length_nm } => collider == SegmentCollider::Single(
                spec_band_box(length_nm as int),
            ),
            TrackSegment::NinetyDegTurn { line_half_length_nm, side } => {
                let boxes = spec_corner_boxes(line_half_length_nm as int, side);
                collider == SegmentCollider::Corner(boxes.0, boxes.1)
            },
            TrackSegment::CircleTurn { angle_udeg, .. } => {
                collider matches SegmentCollider::Fan(prisms) && prisms@.len()
                    == spec_arc_prism_count(angle_udeg as int)
            },
        },
{
    match segment {
        TrackSegment::Start | TrackSegment::End => {
            SegmentCollider::Single(band_box(crate::track::TIP_LENGTH_NM))
        },
        TrackSegment::Straight { length_nm } => SegmentCollider::Single(band_box(length_nm)),
        TrackSegment::NinetyDegTurn { line_half_length_nm, side } => {
            let sgn = side.sign();
            let reach = (line_half_length_nm + TRACK_HALF_WIDTH_NM) / 2;
            let corner = (line_half_length_nm - TRACK_HALF_WIDTH_NM) / 2;
            proof {
                vstd::arithmetic::div_mod::lemma_div_pos_is_pos(
                    line_half_length_nm - TRACK_HALF_WIDTH_NM,
                    2,
                );
                vstd::arithmetic::div_mod::lemma_div_is_ordered(
                    line_half_length_nm - TRACK_HALF_WIDTH_NM,
                    MAX_SEGMENT_NM as int,
                    2,
                );
                assert(-MAX_SEGMENT_NM <= -sgn * corner <= MAX_SEGMENT_NM) by (nonlinear_arith)
                    requires
                        sgn == 1i64 || sgn == -1i64,
                        0 <= corner <= MAX_SEGMENT_NM,
                ;
            }
            let along = BoxCollider {
                half_x_nm: TRACK_HALF_WIDTH_NM,
                half_y_nm: reach,
                half_z_nm: TRACK_HEIGHT_NM / 2,
                offset_x_nm: 0,
                offset_y_nm: corner,
                rotation_udeg: 0,
            };
            let across = BoxCollider {
                half_x_nm: TRACK_HALF_WIDTH_NM,
                half_y_nm: reach,
                half_z_nm: TRACK_HEIGHT_NM / 2,
                offset_x_nm: -sgn * corner,
                offset_y_nm: corner,
                rotation_udeg: 90_000_000,
            };
            SegmentCollider::Corner(along, across)
        },
        TrackSegment::CircleTurn { radius_nm, angle_udeg, side } => {
            let n = arc_prism_count(angle_udeg);
            let wide_radius = if radius_nm < TRACK_HALF_WIDTH_NM {
                TRACK_HALF_WIDTH_NM
            } else {
                radius_nm
            };
            let mut prisms: Vec<ConvexPrism> = Vec::new();
            let mut k: i64 = 0;
            while k < n
                invariant
                    0 <= k <= n,
                    1 <= n <= 81,
                    0 < angle_udeg < 360_000_000,
                    TRACK_HALF_WIDTH_NM <= wide_radius <= MAX_SEGMENT_NM,
                    prisms@.len() == k as int,
                decreases n - k,
            {
                proof {
                    lemma_sub_angle_in_range(angle_udeg as int, n as int, k as int);
                    lemma_sub_angle_in_range(angle_udeg as int, n as int, k as int + 1);
                    assert(0 <= (angle_udeg as int) * (k as int) <= 29_160_000_000i128 && 0 <= (
                    angle_udeg as int) * (k as int + 1) <= 29_160_000_000i128)
                        by (nonlinear_arith)
                        requires
                            0 < angle_udeg < 360_000_000,
                            0 <= k < n <= 81,
                    ;
                }
                let begin_udeg = (((angle_udeg as i128) * (k as i128)) / (n as i128)) as i64;
                let end_udeg = (((angle_udeg as i128) * ((k + 1) as i128)) / (n as i128)) as i64;
                prisms.push(arc_prism(wide_radius, begin_udeg, end_udeg, side));
                k = k + 1;
            }
            SegmentCollider::Fan(prisms)
        },
    }
}

/// A fraction `k / n` of a sweep below a full turn is itself below a full
/// turn.
proof fn lemma_sub_angle_in_range(angle_udeg: int, n: int, k: int)
    requires
        0 < angle_udeg < 360_000_000,
        1 <= n,
        0 <= k <= n,
    ensures
        0 <= (angle_udeg * k) / n < 360_000_000,
{
    assert(0 <= angle_udeg * k && angle_udeg * k <= n * angle_udeg) by (nonlinear_arith)
        requires
            0 < angle_udeg,
            0 <= k <= n,
    ;
    vstd::arithmetic::div_mod::lemma_div_pos_is_pos(angle_udeg * k, n);
    assert(angle_udeg * k < n * 360_000_000) by (nonlinear_arith)
        requires
            0 < angle_udeg < 360_000_000,
            0 <= k <= n,
            1 <= n,
    ;
    vstd::arithmetic::div_mod::lemma_multiply_divide_lt(angle_udeg * k, n, 360_000_000);
}

/// The box under a cap or a straight.
fn band_box(length_nm: i64) -> (b: BoxCollider)
    requires
        0 < length_nm <= MAX_SEGMENT_NM,
    ensures
        b == spec_band_box(length_nm as int),
{
    proof {
        vstd::arithmetic::div_mod::lemma_div_pos_is_pos(length_nm as int, 2);
        vstd::arithmetic::div_mod::lemma_div_is_ordered(
            length_nm as int,
            MAX_SEGMENT_NM as int,
            2,
        );
    }
    BoxCollider {
        half_x_nm: TRACK_HALF_WIDTH_NM,
        half_y_nm: length_nm / 2,
        half_z_nm: TRACK_HEIGHT_NM / 2,
        offset_x_nm: 0,
        offset_y_nm: length_nm / 2,
        rotation_udeg: 0,
    }
}

} // verus!
