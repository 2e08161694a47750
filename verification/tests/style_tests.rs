use layer_compose::background::{ExtBackground, ExtImageBackground, ExtImageSize};
use layer_compose::border::ExtBorder;
use layer_compose::color::Color;
use layer_compose::geometry::{Radius, Rectangle, Vector};
use layer_compose::gradient::{Gradient, GradientStop};
use layer_compose::percent::{PercentScalar, UNIT};
use layer_compose::shadow::{ExtBoxShadow, ExtShadow};
use layer_compose::stroke::{ExDashLineCap, ExDashedStroke, ExLineJoin, ExStroke, ExStrokeStyle};
use layer_compose::surface::{ExtPath, ExtPolygon};

fn ps(raw: i64) -> PercentScalar {
    PercentScalar::new(raw)
}

fn sample_color(a: i64) -> Color {
    Color::new(ps(10000), ps(20000), ps(30000), ps(a))
}

fn sample_surface() -> ExtPolygon {
    ExtPolygon {
        bounds: Rectangle { x: 5, y: 7, width: 200, height: 100 },
        path: ExtPath::Quad(Radius::uniform(4)),
        border: ExtBorder {
            background: ExtBackground::Gradient(Gradient {
                stops: vec![
                    GradientStop { offset: ps(0), color: sample_color(60000) },
                    GradientStop { offset: ps(UNIT as i64), color: sample_color(40000) },
                ],
            }),
            stroke: ExStroke::new(
                ExStrokeStyle::Dashed(ExDashedStroke {
                    dash_length: 4,
                    gap: 2,
                    cap: ExDashLineCap::Round,
                }),
                ExLineJoin::Bevel,
            ),
            width: 3,
        },
        shadow: ExtShadow {
            shadows: vec![
                ExtBoxShadow {
                    color: sample_color(50000),
                    offset: Vector::new(20, 10),
                    blur_radius: 5,
                    spread: 10,
                    is_inset: false,
                },
                ExtBoxShadow {
                    color: sample_color(30000),
                    offset: Vector::new(-20, -10),
                    blur_radius: 2,
                    spread: 0,
                    is_inset: true,
                },
            ],
        },
        snap: true,
    }
}

fn mul_down(x: u32, y: u32) -> u32 {
    (x as u64 * y as u64 / UNIT as u64) as u32
}

#[test]
fn color_scale_alpha_touches_only_alpha() {
    let c = sample_color(60000);
    let r = c.scale_alpha(ps(32768));
    assert_eq!(r.r.get(), 10000);
    assert_eq!(r.g.get(), 20000);
    assert_eq!(r.b.get(), 30000);
    assert_eq!(r.a.get(), 30000);
}

#[test]
fn gradient_scale_alpha_scales_every_stop_and_keeps_order() {
    let g = Gradient {
        stops: vec![
            GradientStop { offset: ps(0), color: sample_color(60000) },
            GradientStop { offset: ps(40000), color: sample_color(20000) },
            GradientStop { offset: ps(UNIT as i64), color: sample_color(10000) },
        ],
    };
    let r = g.scale_alpha(ps(32768));
    assert_eq!(r.stops.len(), 3);
    assert_eq!(r.stops[0].offset.get(), 0);
    assert_eq!(r.stops[1].offset.get(), 40000);
    assert_eq!(r.stops[2].offset.get(), UNIT);
    assert_eq!(r.stops[0].color.a.get(), 30000);
    assert_eq!(r.stops[1].color.a.get(), 10000);
    assert_eq!(r.stops[2].color.a.get(), 5000);
    assert_eq!(r.stops[0].color.r.get(), 10000);
}

#[test]
fn image_background_recombines_its_own_opacity() {
    let img = ExtImageBackground {
        handle: 42,
        repeat_x: true,
        repeat_y: false,
        position_x: ps(32768),
        position_y: ps(16384),
        size: ExtImageSize::Percent(UNIT, 32768),
        alpha: ps(40000),
    };
    let r = img.scale_alpha(ps(32768));
    assert_eq!(r.handle, 42);
    assert!(r.repeat_x);
    assert!(!r.repeat_y);
    assert_eq!(r.position_x.get(), 32768);
    assert_eq!(r.position_y.get(), 16384);
    assert_eq!(r.size, ExtImageSize::Percent(UNIT, 32768));
    assert_eq!(r.alpha.get(), 20000);
}

#[test]
fn background_scale_alpha_keeps_the_variant() {
    let c = ExtBackground::Color(sample_color(60000)).scale_alpha(ps(32768));
    match c {
        ExtBackground::Color(col) => assert_eq!(col.a.get(), 30000),
        _ => panic!("variant changed"),
    }
    let from_color: ExtBackground = sample_color(100).into();
    assert_eq!(from_color, ExtBackground::Color(sample_color(100)));
    let from_gradient: ExtBackground = Gradient { stops: vec![] }.into();
    assert_eq!(from_gradient, ExtBackground::Gradient(Gradient { stops: vec![] }));
}

#[test]
fn border_scale_alpha_keeps_stroke_and_width() {
    let b = ExtBorder {
        background: ExtBackground::Color(sample_color(60000)),
        stroke: ExStroke::new(ExStrokeStyle::Solid, ExLineJoin::Round),
        width: 7,
    };
    let r = b.scale_alpha(ps(32768));
    assert_eq!(r.stroke, ExStroke::new(ExStrokeStyle::Solid, ExLineJoin::Round));
    assert_eq!(r.width, 7);
    match r.background {
        ExtBackground::Color(col) => assert_eq!(col.a.get(), 30000),
        _ => panic!("variant changed"),
    }
}

#[test]
fn border_builders_and_default() {
    let d = ExtBorder::default();
    assert_eq!(d.width, 0);
    assert_eq!(d.background, ExtBackground::Color(Color::transparent()));
    assert_eq!(d.stroke, ExStroke::default());

    let rounded = ExtBorder::rounded(Radius::uniform(4));
    assert_eq!(rounded.width, 1);
    assert_eq!(rounded.background, ExtBackground::Color(Color::transparent()));

    let c = sample_color(60000);
    let from_color = ExtBorder::from_color(c);
    assert_eq!(from_color.width, 1);
    assert_eq!(from_color.background, ExtBackground::Color(c));
    assert_eq!(from_color.stroke, ExStroke::new(ExStrokeStyle::Solid, ExLineJoin::Miter));
}

#[test]
fn surface_scale_alpha_scales_border_and_shadows_only() {
    let s = sample_surface();
    let r = s.clone().scale_alpha(ps(32768));
    assert_eq!(r.bounds, s.bounds);
    assert_eq!(r.path, s.path);
    assert_eq!(r.snap, s.snap);
    assert_eq!(r.border.stroke, s.border.stroke);
    assert_eq!(r.border.width, s.border.width);
    match (&r.border.background, &s.border.background) {
        (ExtBackground::Gradient(rg), ExtBackground::Gradient(sg)) => {
            assert_eq!(rg.stops.len(), sg.stops.len());
            for (rs, ss) in rg.stops.iter().zip(sg.stops.iter()) {
                assert_eq!(rs.offset, ss.offset);
                assert_eq!(rs.color.a.get(), mul_down(ss.color.a.get(), 32768));
            }
        }
        _ => panic!("variant changed"),
    }
    assert_eq!(r.shadow.shadows.len(), 2);
    assert_eq!(r.shadow.shadows[0].color.a.get(), 25000);
    assert_eq!(r.shadow.shadows[1].color.a.get(), 15000);
}

#[test]
fn scale_alpha_by_one_is_identity() {
    let s = sample_surface();
    let r = s.clone().scale_alpha(PercentScalar::default());
    assert_eq!(r.bounds, s.bounds);
    assert_eq!(r.path, s.path);
    assert_eq!(r.snap, s.snap);
    assert_eq!(r.border, s.border);
    assert!(r.shadow == s.shadow);
}

#[test]
fn scale_alpha_does_not_mutate_its_input() {
    let s = sample_surface();
    let copy = s.clone();
    let _scaled = copy.scale_alpha(ps(100));
    // the original, observed field by field, is untouched
    let again = sample_surface();
    assert_eq!(s.bounds, again.bounds);
    assert_eq!(s.path, again.path);
    assert_eq!(s.snap, again.snap);
    assert_eq!(s.border, again.border);
    assert!(s.shadow == again.shadow);
}

#[test]
fn scaling_twice_matches_scaling_by_the_combination_within_one_step() {
    let a = ps(30000);
    let b = ps(40000);
    let s = sample_surface();
    let twice = s.clone().scale_alpha(a).scale_alpha(b);
    let once = s.clone().scale_alpha(a.combine(b));
    assert_eq!(twice.bounds, once.bounds);
    assert_eq!(twice.path, once.path);
    assert_eq!(twice.snap, once.snap);
    assert_eq!(twice.border.stroke, once.border.stroke);
    assert_eq!(twice.border.width, once.border.width);
    for (x, y) in twice.shadow.shadows.iter().zip(once.shadow.shadows.iter()) {
        assert_eq!(x.offset, y.offset);
        assert_eq!(x.blur_radius, y.blur_radius);
        assert_eq!(x.spread, y.spread);
        assq_close(x.color.a.get(), y.color.a.get());
    }
    match (&twice.border.background, &once.border.background) {
        (ExtBackground::Gradient(xg), ExtBackground::Gradient(yg)) => {
            for (x, y) in xg.stops.iter().zip(yg.stops.iter()) {
                assert_eq!(x.offset, y.offset);
                assert_eq!(x.color.r, y.color.r);
                assert_eq!(x.color.g, y.color.g);
                assert_eq!(x.color.b, y.color.b);
                assq_close(x.color.a.get(), y.color.a.get());
            }
        }
        _ => panic!("variant changed"),
    }
}

fn assq_close(x: u32, y: u32) {
    let d = x.abs_diff(y);
    assert!(d <= 1, "alphas differ by more than one step: {x} vs {y}");
}

#[test]
fn empty_polygon_and_empty_stack_are_accepted() {
    // malformed geometry is the rasterizer's concern, not this model's:
    // scaling a surface with an empty point sequence and no shadows works
    let s = ExtPolygon {
        bounds: Rectangle { x: 0, y: 0, width: 0, height: 0 },
        path: ExtPath::Polygon(vec![]),
        border: ExtBorder::default(),
        shadow: ExtShadow::default(),
        snap: false,
    };
    let r = s.scale_alpha(ps(32768));
    assert_eq!(r.path, ExtPath::Polygon(vec![]));
    assert!(r.shadow.shadows.is_empty());
}

#[test]
fn opaque_shadow_halved_has_exactly_half_alpha() {
    let s = ExtPolygon {
        bounds: Rectangle { x: 0, y: 0, width: 10, height: 10 },
        path: ExtPath::Polygon(vec![Vector::new(0, 0), Vector::new(1, 0), Vector::new(1, 1)]),
        border: ExtBorder::default(),
        shadow: ExtShadow {
            shadows: vec![ExtBoxShadow {
                color: Color::new(ps(0), ps(0), ps(0), PercentScalar::default()),
                offset: Vector::new(20, 10),
                blur_radius: 5,
                spread: 10,
                is_inset: false,
            }],
        },
        snap: false,
    };
    let r = s.scale_alpha(ps(32768));
    let sh = &r.shadow.shadows[0];
    assert_eq!(sh.color.a.get(), UNIT / 2);
    assert_eq!(sh.offset, Vector::new(20, 10));
    assert_eq!(sh.blur_radius, 5);
    assert_eq!(sh.spread, 10);
    assert!(!sh.is_inset);
}
