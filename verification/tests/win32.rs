use jawt::md::windows::{DifferentSurfaceKind, SurfaceKind, Win32DrawingSurfaceInfo};

fn info(handle_bits: u64) -> Win32DrawingSurfaceInfo {
    Win32DrawingSurfaceInfo { handle_bits, hdc: 300, hpalette: 400 }
}

#[test]
fn valid_window_probe_yields_window() {
    let kind = info(1000).surface_kind(true, false);
    assert_eq!(kind, Some(SurfaceKind::Window(1000)));
}

#[test]
fn bitmap_probe_yields_bitmap_when_window_probe_fails() {
    let kind = info(1000).surface_kind(false, true);
    assert_eq!(kind, Some(SurfaceKind::Bitmap(1000)));
}

#[test]
fn non_null_bits_yield_di_bits_when_both_probes_fail() {
    let kind = info(1000).surface_kind(false, false);
    assert_eq!(kind, Some(SurfaceKind::DIBits(1000)));
}

#[test]
fn all_invalid_and_null_yields_no_kind() {
    let kind = info(0).surface_kind(false, false);
    assert_eq!(kind, None);
}

#[test]
fn probe_order_window_wins_over_bitmap() {
    // An ambiguous union that both probes accept takes the first one.
    let kind = info(1000).surface_kind(true, true);
    assert_eq!(kind, Some(SurfaceKind::Window(1000)));
}

#[test]
fn gdi_handles_are_exposed_directly() {
    let i = info(0);
    assert_eq!(i.hdc(), 300);
    assert_eq!(i.hpalette(), 400);
}

#[test]
fn surface_kind_accessors_match_their_variant_only() {
    let window = SurfaceKind::Window(1);
    assert_eq!(window.window(), Some(1));
    assert_eq!(window.bitmap(), None);
    assert_eq!(window.di_bits(), None);
    assert_eq!(window.unwrap_window(), 1);
    assert_eq!(window.try_window(), Ok(1));
    assert_eq!(window.try_bitmap(), Err(DifferentSurfaceKind));

    let bitmap = SurfaceKind::Bitmap(2);
    assert_eq!(bitmap.bitmap(), Some(2));
    assert_eq!(bitmap.window(), None);
    assert_eq!(bitmap.unwrap_bitmap(), 2);
    assert_eq!(bitmap.try_bitmap(), Ok(2));
    assert_eq!(bitmap.try_di_bits(), Err(DifferentSurfaceKind));

    let bits = SurfaceKind::DIBits(3);
    assert_eq!(bits.di_bits(), Some(3));
    assert_eq!(bits.bitmap(), None);
    assert_eq!(bits.unwrap_di_bits(), 3);
    assert_eq!(bits.try_di_bits(), Ok(3));
    assert_eq!(bits.try_window(), Err(DifferentSurfaceKind));
}

#[test]
fn different_surface_kind_describes_itself() {
    assert_eq!(DifferentSurfaceKind.message(), "different kind of surface");
}
