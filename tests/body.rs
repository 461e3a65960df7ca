use roko::body::{Body, Colored};
use roko::color::Color;
use roko::lazy::Lazy;
use std::cell::OnceCell;

#[test]
fn body_stores_and_returns_its_color() {
    let c = Color::new(1, 2, 3);
    let body = Body::new(c);
    assert_eq!(body.color().rgba(), c.rgba());
}

#[test]
fn lazy_eager_returns_its_value() {
    let l: Lazy<u32> = Lazy::Eager(4);
    assert_eq!(l.get_or_init(9), 4);
}

#[test]
fn lazy_cell_keeps_the_first_value() {
    let l: Lazy<u32> = Lazy::Lazy(OnceCell::new());
    assert_eq!(l.get_or_init(5), 5);
    assert_eq!(l.get_or_init(6), 5);
}
