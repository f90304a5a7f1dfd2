use jawt::{NativeRect, Rect};

#[test]
fn rect_round_trip_plain() {
    let r = Rect { x: 10, y: 20, width: 30, height: 40 };
    let n = r.into_sys();
    assert_eq!(n.x, 10);
    assert_eq!(n.y, 20);
    assert_eq!(n.width, 30);
    assert_eq!(n.height, 40);
    let back = Rect::from_sys(n);
    assert_eq!(back, r);
}

#[test]
fn rect_round_trip_negative_origin() {
    let r = Rect { x: -15, y: -7, width: 3, height: 9 };
    assert_eq!(Rect::from_sys(r.into_sys()), r);
}

#[test]
fn rect_round_trip_zero_extent() {
    let r = Rect { x: 5, y: -5, width: 0, height: 0 };
    assert_eq!(Rect::from_sys(r.into_sys()), r);
}

#[test]
fn rect_round_trip_extreme_values() {
    let r = Rect { x: i32::MIN, y: i32::MAX, width: i32::MAX, height: i32::MIN };
    assert_eq!(Rect::from_sys(r.into_sys()), r);
}

#[test]
fn native_rect_round_trip() {
    let n = NativeRect { x: -1, y: 2, width: 0, height: 2147483647 };
    let r = Rect::from_sys(n);
    assert_eq!(r.x, -1);
    assert_eq!(r.y, 2);
    assert_eq!(r.width, 0);
    assert_eq!(r.height, 2147483647);
    let back = r.into_sys();
    assert_eq!(back, n);
}
