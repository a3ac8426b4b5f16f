use wallpaper::screen::{ResourceIds, ScreenDescriptor};
use wallpaper::surface::{new_wallpaper_surface, SetupError, WallpaperSurface, X11Renderer};
use wallpaper::xproto::{WmStateAtom, XRequest};

fn screen_1080p() -> ScreenDescriptor {
    ScreenDescriptor { width: 1920, height: 1080, root: 101, root_depth: 24, white_pixel: 0x00ff_ffff }
}

fn ids() -> ResourceIds {
    ResourceIds { window: 200, pixmap: 201, gc: 202 }
}

fn live_surface() -> X11Renderer {
    new_wallpaper_surface(screen_1080p(), ids()).unwrap()
}

#[test]
fn dimensions_report_the_screen_size() {
    let s = live_surface();
    assert_eq!(s.dimensions(), (1920, 1080));
    assert_eq!(s.native_window(), 200);
}

#[test]
fn dimensions_match_for_various_geometries() {
    for (w, h) in [(1u16, 1u16), (800, 600), (1920, 1080), (65535, 65535)] {
        let screen = ScreenDescriptor { width: w, height: h, ..screen_1080p() };
        let s = new_wallpaper_surface(screen, ids()).unwrap();
        assert_eq!(s.dimensions(), (w, h));
        let setup = s.setup_requests();
        for req in setup {
            match req {
                XRequest::CreateWindow { width, height, .. } => {
                    assert_eq!((width, height), (w, h));
                }
                XRequest::CreatePixmap { width, height, .. } => {
                    assert_eq!((width, height), (w, h));
                }
                _ => {}
            }
        }
    }
}

#[test]
fn zero_geometry_is_rejected() {
    let screen = ScreenDescriptor { width: 0, ..screen_1080p() };
    assert_eq!(new_wallpaper_surface(screen, ids()).unwrap_err(), SetupError::BadGeometry);
    let screen = ScreenDescriptor { height: 0, ..screen_1080p() };
    assert_eq!(new_wallpaper_surface(screen, ids()).unwrap_err(), SetupError::BadGeometry);
}

#[test]
fn clashing_identifiers_are_rejected() {
    let clash = ResourceIds { window: 200, pixmap: 200, gc: 202 };
    assert_eq!(new_wallpaper_surface(screen_1080p(), clash).unwrap_err(), SetupError::BadIdentifiers);
    let zero = ResourceIds { window: 0, pixmap: 201, gc: 202 };
    assert_eq!(new_wallpaper_surface(screen_1080p(), zero).unwrap_err(), SetupError::BadIdentifiers);
    let root = ResourceIds { window: 101, pixmap: 201, gc: 202 };
    assert_eq!(new_wallpaper_surface(screen_1080p(), root).unwrap_err(), SetupError::BadIdentifiers);
}

#[test]
fn setup_plan_is_the_documented_sequence() {
    let s = live_surface();
    let setup = s.setup_requests();
    assert_eq!(
        setup,
        vec![
            XRequest::InternAtom { atom: WmStateAtom::Above },
            XRequest::InternAtom { atom: WmStateAtom::Below },
            XRequest::CreateWindow {
                depth: 24,
                window: 200,
                parent: 101,
                x: 0,
                y: 0,
                width: 1920,
                height: 1080,
                border_width: 0,
                override_redirect: true,
            },
            XRequest::CreatePixmap {
                depth: 24,
                pixmap: 201,
                drawable: 200,
                width: 1920,
                height: 1080,
            },
            XRequest::CreateGc { gc: 202, drawable: 200, foreground: 0x00ff_ffff },
            XRequest::MapWindow { window: 200 },
            XRequest::StackBelow { window: 200 },
            XRequest::Flush,
        ]
    );
}

#[test]
fn window_is_override_redirect_and_stacked_below_after_map() {
    let setup = live_surface().setup_requests();
    let mut map_at = None;
    let mut below_at = None;
    for (i, req) in setup.iter().enumerate() {
        match req {
            XRequest::CreateWindow { override_redirect, .. } => assert!(*override_redirect),
            XRequest::MapWindow { .. } => map_at = Some(i),
            XRequest::StackBelow { .. } => below_at = Some(i),
            _ => {}
        }
    }
    assert!(map_at.unwrap() < below_at.unwrap());
}

#[test]
fn atom_names_are_the_protocol_names() {
    assert_eq!(WmStateAtom::Above.name(), "_NET_WM_STATE_ABOVE");
    assert_eq!(WmStateAtom::Below.name(), "_NET_WM_STATE_BELOW");
}

#[test]
fn redraw_before_any_drawing_is_a_legal_full_copy() {
    // A freshly assembled surface has a blank offscreen buffer; its redraw
    // plan must still be a legal copy of the buffer's full rectangle.
    let s = live_surface();
    let plan = s.redraw();
    assert_eq!(
        plan,
        vec![
            XRequest::CopyArea {
                src: 201,
                dst: 101,
                gc: 202,
                src_x: 0,
                src_y: 0,
                dst_x: 0,
                dst_y: 0,
                width: 1920,
                height: 1080,
            },
            XRequest::Flush,
        ]
    );
    // Repeating it plans the identical copy: redraw is idempotent.
    assert_eq!(s.redraw(), plan);
}

#[test]
fn destroy_releases_each_identifier_once() {
    let mut s = live_surface();
    let first = s.destroy();
    assert_eq!(
        first,
        vec![
            XRequest::FreeGc { gc: 202 },
            XRequest::FreePixmap { pixmap: 201 },
            XRequest::DestroyWindow { window: 200 },
            XRequest::Flush,
        ]
    );
}

#[test]
fn destroy_twice_is_a_no_op_the_second_time() {
    let mut s = live_surface();
    let first = s.destroy();
    let second = s.destroy();
    assert!(second.is_empty());
    // Across both calls no identifier is released twice.
    let mut released = Vec::new();
    for req in first.iter().chain(second.iter()) {
        match req {
            XRequest::FreeGc { gc } => released.push(*gc),
            XRequest::FreePixmap { pixmap } => released.push(*pixmap),
            XRequest::DestroyWindow { window } => released.push(*window),
            _ => {}
        }
    }
    let count = released.len();
    released.sort_unstable();
    released.dedup();
    assert_eq!(released.len(), count);
    // The dimensions survive the release.
    assert_eq!(s.dimensions(), (1920, 1080));
}
