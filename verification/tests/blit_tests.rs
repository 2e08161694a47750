use layer_compose::blit::{blit_rect_ndc, NdcRect, State};

fn as_f32(num: i64, den: u32) -> f32 {
    num as f32 / den as f32
}

#[test]
fn blit_coordinate_mapping_is_exact() {
    let rec = blit_rect_ndc((100, 150, 200, 100), (800, 600)).unwrap();
    assert_eq!(
        rec,
        NdcRect { cx_num: -400, cy_num: 200, w_num: 400, h_num: 200, den_x: 800, den_y: 600 }
    );
    // ndc_cx = (200 / 800) * 2 - 1 = -0.5, exactly representable
    assert_eq!(as_f32(rec.cx_num, rec.den_x), -0.5);
    // ndc_cy = 1 - (200 / 600) * 2 = 1/3: exact as a rational
    assert_eq!(rec.cy_num * 3, rec.den_y as i64);
    assert!((as_f32(rec.cy_num, rec.den_y) - 1.0 / 3.0).abs() < 1e-6);
    // ndc_w = (200 / 800) * 2 = 0.5
    assert_eq!(as_f32(rec.w_num, rec.den_x), 0.5);
    // ndc_h = (100 / 600) * 2 = 1/3
    assert_eq!(rec.h_num * 3, rec.den_y as i64);
    assert!((as_f32(rec.h_num, rec.den_y) - 1.0 / 3.0).abs() < 1e-6);
}

#[test]
fn blit_covering_the_viewport_fills_clip_space() {
    let rec = blit_rect_ndc((0, 0, 800, 600), (800, 600)).unwrap();
    assert_eq!(as_f32(rec.cx_num, rec.den_x), 0.0);
    assert_eq!(as_f32(rec.cy_num, rec.den_y), 0.0);
    assert_eq!(as_f32(rec.w_num, rec.den_x), 2.0);
    assert_eq!(as_f32(rec.h_num, rec.den_y), 2.0);
}

#[test]
fn zero_viewport_is_rejected() {
    assert!(blit_rect_ndc((0, 0, 10, 10), (0, 600)).is_none());
    assert!(blit_rect_ndc((0, 0, 10, 10), (800, 0)).is_none());
    assert!(blit_rect_ndc((0, 0, 10, 10), (0, 0)).is_none());
}

#[test]
fn zero_area_destination_is_a_degenerate_quad_not_an_error() {
    let rec = blit_rect_ndc((40, 30, 0, 0), (800, 600)).unwrap();
    assert_eq!(rec.w_num, 0);
    assert_eq!(rec.h_num, 0);
    assert_eq!(as_f32(rec.cx_num, rec.den_x), (40.0 / 800.0) * 2.0 - 1.0);
    assert_eq!(as_f32(rec.cy_num, rec.den_y), 1.0 - (30.0 / 600.0) * 2.0);
}

#[test]
fn rectangles_larger_than_the_viewport_map_past_clip_space() {
    let rec = blit_rect_ndc((0, 0, 1600, 600), (800, 600)).unwrap();
    assert_eq!(as_f32(rec.w_num, rec.den_x), 4.0);
    assert_eq!(as_f32(rec.cx_num, rec.den_x), 1.0);
}

#[test]
fn state_default_is_empty() {
    let s = State::default();
    assert_eq!(s, State {});
}
