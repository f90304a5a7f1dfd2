use jawt::md::unix::{WindowRetrievalError, X11DrawingSurfaceInfo};

fn info() -> X11DrawingSurfaceInfo {
    X11DrawingSurfaceInfo {
        drawable: 5000,
        display: 6000,
        visual_id: 7,
        colormap_id: 8,
        depth: 24,
        get_awt_color: Some(900),
    }
}

#[test]
fn valid_window_comes_back_unchanged() {
    assert_eq!(info().window(true, 1), Ok(5000));
    assert_eq!(info().window(true, -3), Ok(5000));
}

#[test]
fn drawable_that_is_no_window_gets_its_own_error() {
    assert_eq!(
        info().window(true, 0),
        Err(WindowRetrievalError::DrawableIsNotWindow(5000))
    );
}

#[test]
fn failed_connection_gets_its_own_error() {
    assert_eq!(info().window(false, 0), Err(WindowRetrievalError::XlibOpenFailed));
    // With no connection the attributes status means nothing: still the same
    // error, never the not-a-window one.
    assert_eq!(info().window(false, 1), Err(WindowRetrievalError::XlibOpenFailed));
}

#[test]
fn failure_modes_are_never_conflated() {
    assert_ne!(
        info().window(false, 0),
        Err(WindowRetrievalError::DrawableIsNotWindow(5000))
    );
    assert_ne!(info().window(true, 0), Err(WindowRetrievalError::XlibOpenFailed));
}

#[test]
fn error_messages_name_the_failure() {
    assert_eq!(WindowRetrievalError::XlibOpenFailed.message(), "failed to open X11");
    assert_eq!(
        WindowRetrievalError::DrawableIsNotWindow(5000).message(),
        "drawable is not a window"
    );
}

#[test]
fn accessors_expose_the_native_fields() {
    let i = info();
    assert_eq!(i.drawable(), 5000);
    assert_eq!(i.display(), 6000);
    assert_eq!(i.visual_id(), 7);
    assert_eq!(i.colormap_id(), 8);
    assert_eq!(i.depth(), 24);
}
