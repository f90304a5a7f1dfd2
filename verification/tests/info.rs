use jawt::md::unix::X11DrawingSurfaceInfo;
use jawt::{
    DrawingSurface, DrawingSurfaceInfo, DrawingSurfacePlatformInfo, NativeRect,
    RawDrawingSurfaceInfo, Rect,
};

fn x11_platform() -> DrawingSurfacePlatformInfo {
    DrawingSurfacePlatformInfo::X11(X11DrawingSurfaceInfo {
        drawable: 5000,
        display: 6000,
        visual_id: 7,
        colormap_id: 8,
        depth: 24,
        get_awt_color: Some(900),
    })
}

fn raw_info(clip: Vec<NativeRect>) -> RawDrawingSurfaceInfo {
    RawDrawingSurfaceInfo {
        ds: 42,
        info_handle: 77,
        bounds: NativeRect { x: 1, y: 2, width: 640, height: 480 },
        clip_size: clip.len() as i32,
        clip,
        platform_info: x11_platform(),
    }
}

#[test]
fn clip_length_matches_count_zero() {
    let info = DrawingSurfaceInfo::from_raw_parts(raw_info(vec![]), 88);
    assert_eq!(info.clip().len(), 0);
}

#[test]
fn clip_length_matches_count_one() {
    let clip = vec![NativeRect { x: 0, y: 0, width: 10, height: 10 }];
    let info = DrawingSurfaceInfo::from_raw_parts(raw_info(clip), 88);
    assert_eq!(info.clip().len(), 1);
    assert_eq!(info.clip()[0], Rect { x: 0, y: 0, width: 10, height: 10 });
}

#[test]
fn clip_length_matches_count_many() {
    let clip = vec![
        NativeRect { x: 0, y: 0, width: 10, height: 10 },
        NativeRect { x: -5, y: 5, width: 0, height: 3 },
        NativeRect { x: 7, y: -7, width: 2, height: 0 },
    ];
    let info = DrawingSurfaceInfo::from_raw_parts(raw_info(clip), 88);
    assert_eq!(info.clip().len(), 3);
    assert_eq!(info.clip()[1], Rect { x: -5, y: 5, width: 0, height: 3 });
    assert_eq!(info.clip()[2], Rect { x: 7, y: -7, width: 2, height: 0 });
}

#[test]
fn bounds_are_read_out_of_the_native_layout() {
    let info = DrawingSurfaceInfo::from_raw_parts(raw_info(vec![]), 88);
    assert_eq!(info.bounds(), Rect { x: 1, y: 2, width: 640, height: 480 });
}

#[test]
fn info_free_call_uses_the_captured_function() {
    let info = DrawingSurfaceInfo::from_raw_parts(raw_info(vec![]), 88);
    assert_eq!(info.free_call(), (88, 77));
    assert_eq!(info.into_raw_parts(), (77, 88));
}

#[test]
fn platform_info_is_the_stored_bundle() {
    let info = DrawingSurfaceInfo::from_raw_parts(raw_info(vec![]), 88);
    match info.platform_info() {
        DrawingSurfacePlatformInfo::X11(x11) => {
            assert_eq!(x11.drawable(), 5000);
            assert_eq!(x11.depth(), 24);
        }
        _ => panic!("expected the X11 bundle"),
    }
}

#[test]
fn color_query_names_the_captured_entry_point() {
    let info = DrawingSurfaceInfo::from_raw_parts(raw_info(vec![]), 88);
    let x11 = X11DrawingSurfaceInfo {
        drawable: 5000,
        display: 6000,
        visual_id: 7,
        colormap_id: 8,
        depth: 24,
        get_awt_color: Some(900),
    };
    let query = x11.get_awt_color(&info, 10, 20, 30);
    assert_eq!(query.fn_id, 900);
    assert_eq!(query.ds, 42);
    assert_eq!(query.red, 10);
    assert_eq!(query.green, 20);
    assert_eq!(query.blue, 30);
}

#[test]
fn locked_surface_hands_out_an_info_snapshot() {
    let mut surface = DrawingSurface::from_raw_parts(42, 43);
    let (_result, mut guard) = surface.lock(0).expect("lock");
    let info = guard
        .drawing_surface_info(Some(raw_info(vec![NativeRect { x: 0, y: 0, width: 1, height: 1 }])), 88)
        .expect("non-null info yields a snapshot");
    assert_eq!(info.ds(), 42);
    assert_eq!(info.clip().len(), 1);
    drop(info);
    drop(guard);
    assert_eq!(surface.into_raw_parts(), (42, 43));
}

#[test]
fn null_native_info_yields_no_snapshot() {
    let mut surface = DrawingSurface::from_raw_parts(42, 43);
    let (_result, mut guard) = surface.lock(0).expect("lock");
    assert!(guard.drawing_surface_info(None, 88).is_none());
}
