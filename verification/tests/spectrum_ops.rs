//! The color types against the renderer's own lane arithmetic: the
//! blackness and NaN tests against scalar formulas, and merge, splat,
//! the lane transpose and the clamp against ultraviolet's wide types.

use pathkernel::lanes::Lanes;
use pathkernel::math::saturate;
use pathkernel::spectrum::Srgb;
use pathkernel::spectrum::WSrgb;
use ultraviolet::f32x4;
use ultraviolet::Vec3;
use ultraviolet::Wec3;

fn srgb_of(r: f32, g: f32, b: f32) -> Srgb {
    Srgb::new(r.to_bits(), g.to_bits(), b.to_bits())
}

#[test]
fn is_black_matches_component_max_formula() {
    let cases: [(f32, f32, f32); 9] = [
        (0.0, 0.0, 0.0),
        (1e-4, 0.0, 0.0),
        (9.9e-5, 9.9e-5, 9.9e-5),
        (0.5, 0.0, 0.0),
        (0.0, 0.0, 1.0),
        (-1.0, -1.0, -1.0),
        (-1.0, 2e-4, -1.0),
        (f32::NAN, 0.0, 0.0),
        (f32::NAN, f32::NAN, 0.5),
    ];
    for &(r, g, b) in cases.iter() {
        let expected_max = Vec3::new(r, g, b).component_max();
        let got_max = f32::from_bits(srgb_of(r, g, b).max_channel());
        if expected_max.is_nan() {
            assert!(got_max.is_nan(), "{r} {g} {b}");
        } else {
            assert_eq!(got_max, expected_max, "{r} {g} {b}");
        }
        assert_eq!(srgb_of(r, g, b).is_black(), expected_max < 1e-4, "{r} {g} {b}");
    }
}

#[test]
fn is_nan_matches_channel_classification() {
    assert!(!srgb_of(0.0, 1.0, -2.0).is_nan());
    assert!(!srgb_of(f32::INFINITY, 0.0, f32::NEG_INFINITY).is_nan());
    assert!(srgb_of(f32::NAN, 0.0, 0.0).is_nan());
    assert!(srgb_of(0.0, f32::NAN, 0.0).is_nan());
    assert!(srgb_of(0.0, 0.0, f32::NAN).is_nan());
    assert!(Srgb::new(0x7f80_0001, 0, 0).is_nan());
    assert!(!Srgb::zero().is_nan());
    assert!(!Srgb::one().is_nan());
}

fn wsrgb_of(wec: Wec3) -> WSrgb {
    let vecs: [Vec3; 4] = wec.into();
    WSrgb::from_channels([
        Srgb::new(vecs[0].x.to_bits(), vecs[0].y.to_bits(), vecs[0].z.to_bits()),
        Srgb::new(vecs[1].x.to_bits(), vecs[1].y.to_bits(), vecs[1].z.to_bits()),
        Srgb::new(vecs[2].x.to_bits(), vecs[2].y.to_bits(), vecs[2].z.to_bits()),
        Srgb::new(vecs[3].x.to_bits(), vecs[3].y.to_bits(), vecs[3].z.to_bits()),
    ])
}

fn assert_same(w: &WSrgb, wec: Wec3) {
    let vecs: [Vec3; 4] = wec.into();
    for lane in 0..4 {
        assert_eq!(w.r.0[lane], vecs[lane].x.to_bits(), "r lane {lane}");
        assert_eq!(w.g.0[lane], vecs[lane].y.to_bits(), "g lane {lane}");
        assert_eq!(w.b.0[lane], vecs[lane].z.to_bits(), "b lane {lane}");
    }
}

#[test]
fn merge_matches_ultraviolet_blend() {
    let a = Wec3::new(
        f32x4::new(1.0, 2.0, 3.0, 4.0),
        f32x4::new(-1.0, -2.0, -3.0, -4.0),
        f32x4::new(0.5, 0.25, 0.125, 0.0625),
    );
    let b = Wec3::new(
        f32x4::new(9.0, 8.0, 7.0, 6.0),
        f32x4::new(0.0, 0.0, 0.0, 0.0),
        f32x4::new(-9.0, -8.0, -7.0, -6.0),
    );
    let mask = f32x4::new(1.0, 3.0, 2.0, 0.0).cmp_gt(f32x4::from(1.5));
    let expected = Wec3::merge(mask, a, b);

    let mask_bits: [f32; 4] = *mask.as_ref();
    let lane_mask = Lanes([
        mask_bits[0].to_bits(),
        mask_bits[1].to_bits(),
        mask_bits[2].to_bits(),
        mask_bits[3].to_bits(),
    ]);
    let merged = WSrgb::merge(lane_mask, wsrgb_of(a), wsrgb_of(b));
    assert_same(&merged, expected);
}

#[test]
fn splat_broadcasts_one_color() {
    let w = WSrgb::splat(srgb_of(0.25, -1.5, 3.75));
    for lane in 0..4 {
        assert_eq!(w.r.0[lane], 0.25f32.to_bits());
        assert_eq!(w.g.0[lane], (-1.5f32).to_bits());
        assert_eq!(w.b.0[lane], 3.75f32.to_bits());
    }
}

#[test]
fn lane_transpose_round_trips() {
    let colors = [
        srgb_of(0.1, 0.2, 0.3),
        srgb_of(-0.5, 1.5, 0.0),
        srgb_of(7.0, -8.0, 9.0),
        srgb_of(1e-4, 2e-4, 3e-4),
    ];
    let w = WSrgb::from_channels(colors);
    let back = w.to_channels();
    assert_eq!(back, colors);
}

#[test]
fn saturate_matches_wide_clamp() {
    let cases: [f32; 8] = [-1.0, -0.0, 0.0, 0.25, 1.0, 2.0, f32::INFINITY, f32::NEG_INFINITY];
    for &v in cases.iter() {
        let wide_val = f32x4::from(v).min(f32x4::from(1.0)).max(f32x4::from(0.0));
        let expected: [f32; 4] = *wide_val.as_ref();
        let got = saturate(Lanes([v.to_bits(); 4]));
        for lane in 0..4 {
            assert_eq!(got.0[lane], expected[lane].to_bits(), "value {v} lane {lane}");
        }
    }
    // A NaN lane comes out of the SIMD clamp as 1.0.
    let wide_nan = f32x4::from(f32::NAN).min(f32x4::from(1.0)).max(f32x4::from(0.0));
    let expected_nan: [f32; 4] = *wide_nan.as_ref();
    let got_nan = saturate(Lanes([f32::NAN.to_bits(); 4]));
    for lane in 0..4 {
        assert_eq!(got_nan.0[lane], expected_nan[lane].to_bits(), "nan lane {lane}");
    }
}
