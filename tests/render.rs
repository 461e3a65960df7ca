use roko::color::Color;
use roko::renderer::Renderer;
use roko::scene::{nearest_hit, resolve_color};
use roko::viewport::{calculate_ndc_x, calculate_ndc_y, Fraction};

fn value(f: Fraction) -> f64 {
    f.numerator as f64 / f.denominator as f64
}

fn approx_eq(a: f64, b: f64) -> bool {
    (a - b).abs() < f64::EPSILON * 3.
}

#[test]
fn renderer_walks_rows_top_down_left_to_right() {
    let r = Renderer::new(3, 2);
    assert_eq!(r.pixels(), vec![(0, 0), (1, 0), (2, 0), (0, 1), (1, 1), (2, 1)]);
}

#[test]
fn renderer_empty_canvas_has_no_pixels() {
    assert!(Renderer::new(0, 5).pixels().is_empty());
    assert!(Renderer::new(5, 0).pixels().is_empty());
}

#[test]
fn renderer_full_canvas_size() {
    let p = Renderer::new(600, 600).pixels();
    assert_eq!(p.len(), 360000);
    assert_eq!(p[359999], (599, 599));
    assert_eq!(p[601], (1, 1));
}

#[test]
fn ndc_x_mapping() {
    assert_eq!(calculate_ndc_x(0, 600), Fraction { numerator: -599, denominator: 600 });
    assert!(approx_eq(value(calculate_ndc_x(0, 600)), -0.9983333333333333));
    assert!(approx_eq(value(calculate_ndc_x(300, 600)), 0.0016666666666667778));
    assert!(approx_eq(value(calculate_ndc_x(599, 600)), 0.9983333333333333));
}

#[test]
fn ndc_y_mapping() {
    assert_eq!(calculate_ndc_y(0, 600), Fraction { numerator: 599, denominator: 600 });
    assert!(approx_eq(value(calculate_ndc_y(0, 600)), 0.9983333333333333));
    assert!(approx_eq(value(calculate_ndc_y(300, 600)), -0.0016666666666667778));
    assert!(approx_eq(value(calculate_ndc_y(599, 600)), -0.9983333333333333));
}

#[test]
fn nearest_hit_picks_smallest_distance() {
    let hits = vec![None, Some(6.0f64.to_bits()), Some(4.0f64.to_bits()), None];
    assert_eq!(nearest_hit(&hits), Some(2));
}

#[test]
fn nearest_hit_ties_go_to_the_first_body() {
    let hits = vec![Some(5), Some(3), Some(3)];
    assert_eq!(nearest_hit(&hits), Some(1));
}

#[test]
fn nearest_hit_none_when_all_miss() {
    assert_eq!(nearest_hit(&vec![None, None]), None);
    assert_eq!(nearest_hit(&vec![]), None);
}

#[test]
fn resolve_color_takes_nearest_body_or_background() {
    let red = Color::new(255, 0, 0);
    let green = Color::new(0, 255, 0);
    let blue = Color::new(0, 0, 255);
    let colors = vec![red, green];
    let hit = vec![Some(4.0f64.to_bits()), Some(1.5f64.to_bits())];
    assert_eq!(resolve_color(&hit, &colors, blue).rgba(), green.rgba());
    let miss = vec![None, None];
    assert_eq!(resolve_color(&miss, &colors, blue).rgba(), blue.rgba());
}

#[test]
fn resolve_color_is_repeatable() {
    let colors = vec![Color::new(1, 0, 0), Color::new(0, 1, 0)];
    let hits = vec![Some(2.0f64.to_bits()), Some(3.0f64.to_bits())];
    let bg = Color::new(0, 0, 1);
    let a = resolve_color(&hits, &colors, bg);
    let b = resolve_color(&hits, &colors, bg);
    assert_eq!(a.rgba(), b.rgba());
    assert_eq!(a.rgba(), [1, 0, 0, 255]);
}
