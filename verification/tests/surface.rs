use jawt::{Awt, DrawingSurface};

fn table_with(get: u64, free: u64) -> Awt {
    let mut table = Awt::initial_table(0x00090000);
    table.get_drawing_surface = Some(get);
    table.free_drawing_surface = Some(free);
    Awt::from_inner(table)
}

#[test]
fn free_function_is_captured_at_acquisition_time() {
    let first = table_with(10, 11);
    let surface = first.drawing_surface(42).expect("non-null handle yields a surface");

    // Acquiring from a different table afterwards must not change which
    // deallocator the earlier surface uses.
    let later = table_with(20, 21);
    let other = later.drawing_surface(43).expect("non-null handle yields a surface");

    assert_eq!(surface.free_call(), (11, 42));
    assert_eq!(other.free_call(), (21, 43));
    assert_eq!(surface.into_raw_parts(), (42, 11));
    assert_eq!(other.into_raw_parts(), (43, 21));
}

#[test]
fn null_native_handle_yields_no_surface() {
    let awt = table_with(10, 11);
    assert!(awt.drawing_surface(0).is_none());
}

#[test]
fn raw_parts_round_trip() {
    let surface = DrawingSurface::from_raw_parts(7, 8);
    assert_eq!(surface.into_raw_parts(), (7, 8));
}
