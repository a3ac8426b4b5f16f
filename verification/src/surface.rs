//! The wallpaper surface abstraction and its reference backend model: the
//! setup plan for an override-redirect, bottom-stacked, full-screen window
//! with an offscreen buffer, the redraw plan, and explicit resource release.

use vstd::prelude::*;

use crate::screen::{ResourceIds, ScreenDescriptor};
use crate::xproto::{
    contains_full_copy, ends_with_flush, release_count, WmStateAtom, XRequest,
};

verus! {

/// Why a wallpaper surface could not be assembled from the given inputs.
#[derive(Clone, Copy, PartialEq, Eq, Structural, Debug)]
pub enum SetupError {
    /// The screen reports a zero width or height.
    BadGeometry,
    /// The allocated identifiers are zero, clash, or equal the root window.
    BadIdentifiers,
}

/// Capability contract any windowing backend must satisfy so the GPU layer
/// can treat it uniformly: fixed dimensions, a redraw plan that copies the
/// whole offscreen buffer onto the visible target, an idempotent release of
/// backend-owned identifiers, and a native window identifier for the GPU
/// layer to bind to.
pub trait WallpaperSurface: Sized {
    /// The backend's internal invariant.
    spec fn wf(self) -> bool;

    /// Fixed width of the surface, in pixels.
    spec fn width(self) -> u16;

    /// Fixed height of the surface, in pixels.
    spec fn height(self) -> u16;

    /// Whether the backend has already released its identifiers.
    spec fn destroyed(self) -> bool;

    /// The identifier of the native window, handed to the GPU layer.
    spec fn window_id(self) -> u32;

    /// The requests one redraw issues.
    spec fn redraw_model(self) -> Seq<XRequest>;

    /// The requests the next `destroy` call issues: a release of each owned
    /// identifier when live, nothing once destroyed.
    spec fn destroy_emits(self) -> Seq<XRequest>;

    /// The backend's state after one `destroy` call.
    spec fn after_destroy(self) -> Self;

    /// The fixed screen size in pixels; constant for the surface's lifetime.
    fn dimensions(&self) -> (r: (u16, u16))
        requires
            self.wf(),
        ensures
            r.0 == self.width(),
            r.1 == self.height(),
    ;

    /// Plan one redraw: copy the full offscreen buffer onto the visible
    /// target, then flush. Total for every live surface, drawn into or not.
    fn redraw(&self) -> (r: Vec<XRequest>)
        requires
            self.wf(),
            !self.destroyed(),
        ensures
            r@ == self.redraw_model(),
            contains_full_copy(r@, self.width(), self.height()),
            ends_with_flush(r@),
    ;

    /// Plan the release of backend-owned identifiers. The first call releases
    /// each identifier at most once; any later call issues nothing.
    fn destroy(&mut self) -> (r: Vec<XRequest>)
        requires
            old(self).wf(),
        ensures
            r@ == old(self).destroy_emits(),
            *final(self) == old(self).after_destroy(),
            final(self).wf(),
            final(self).destroyed(),
            final(self).width() == old(self).width(),
            final(self).height() == old(self).height(),
            old(self).destroyed() ==> r@.len() == 0 && *final(self) == *old(self),
            forall|id: u32| release_count(r@, id) <= 1,
    ;

    /// The native window identifier, exposed unmodified to the GPU layer.
    fn native_window(&self) -> (r: u32)
        requires
            self.wf(),
        ensures
            r == self.window_id(),
    ;
}

/// Reference backend model: the wallpaper window, offscreen buffer and
/// graphics context of one screen of a display connection. The unverified
/// shell owns the live connection and executes the plans this type produces.
#[derive(Debug)]
pub struct X11Renderer {
    screen: ScreenDescriptor,
    ids: ResourceIds,
    released: bool,
}

/// The full setup plan of the reference backend: resolve both window-manager
/// hint atoms, create the full-screen override-redirect window on the root,
/// create the offscreen buffer and graphics context, map the window, restack
/// it to the bottom, and flush.
pub open spec fn spec_setup_requests(screen: ScreenDescriptor, ids: ResourceIds) -> Seq<
    XRequest,
> {
    seq![
        XRequest::InternAtom { atom: WmStateAtom::Above },
        XRequest::InternAtom { atom: WmStateAtom::Below },
        XRequest::CreateWindow {
            depth: screen.root_depth,
            window: ids.window,
            parent: screen.root,
            x: 0,
            y: 0,
            width: screen.width,
            height: screen.height,
            border_width: 0,
            override_redirect: true,
        },
        XRequest::CreatePixmap {
            depth: screen.root_depth,
            pixmap: ids.pixmap,
            drawable: ids.window,
            width: screen.width,
            height: screen.height,
        },
        XRequest::CreateGc { gc: ids.gc, drawable: ids.window, foreground: screen.white_pixel },
        XRequest::MapWindow { window: ids.window },
        XRequest::StackBelow { window: ids.window },
        XRequest::Flush,
    ]
}

/// The redraw plan: one full-rectangle copy from the offscreen buffer onto
/// the root window, then a flush.
pub open spec fn spec_redraw_requests(screen: ScreenDescriptor, ids: ResourceIds) -> Seq<
    XRequest,
> {
    seq![
        XRequest::CopyArea {
            src: ids.pixmap,
            dst: screen.root,
            gc: ids.gc,
            src_x: 0,
            src_y: 0,
            dst_x: 0,
            dst_y: 0,
            width: screen.width,
            height: screen.height,
        },
        XRequest::Flush,
    ]
}

/// The release plan of a live surface: free the graphics context and the
/// offscreen buffer, destroy the window, flush.
pub open spec fn spec_release_requests(ids: ResourceIds) -> Seq<XRequest> {
    seq![
        XRequest::FreeGc { gc: ids.gc },
        XRequest::FreePixmap { pixmap: ids.pixmap },
        XRequest::DestroyWindow { window: ids.window },
        XRequest::Flush,
    ]
}

impl X11Renderer {
    /// The screen snapshot this surface was assembled from.
    pub closed spec fn screen(self) -> ScreenDescriptor {
        self.screen
    }

    /// The identifiers this surface owns.
    pub closed spec fn ids(self) -> ResourceIds {
        self.ids
    }

    /// The setup plan for this surface, to be executed once before use.
    pub fn setup_requests(&self) -> (r: Vec<XRequest>)
        requires
            self.wf(),
            !self.destroyed(),
        ensures
            r@ == spec_setup_requests(self.screen(), self.ids()),
    {
        let v: Vec<XRequest> = vec![
            XRequest::InternAtom { atom: WmStateAtom::Above },
            XRequest::InternAtom { atom: WmStateAtom::Below },
            XRequest::CreateWindow {
                depth: self.screen.root_depth,
                window: self.ids.window,
                parent: self.screen.root,
                x: 0,
                y: 0,
                width: self.screen.width,
                height: self.screen.height,
                border_width: 0,
                override_redirect: true,
            },
            XRequest::CreatePixmap {
                depth: self.screen.root_depth,
                pixmap: self.ids.pixmap,
                drawable: self.ids.window,
                width: self.screen.width,
                height: self.screen.height,
            },
            XRequest::CreateGc {
                gc: self.ids.gc,
                drawable: self.ids.window,
                foreground: self.screen.white_pixel,
            },
            XRequest::MapWindow { window: self.ids.window },
            XRequest::StackBelow { window: self.ids.window },
            XRequest::Flush,
        ];
        proof {
            assert(v@ =~= spec_setup_requests(self.screen, self.ids));
        }
        v
    }
}

impl WallpaperSurface for X11Renderer {
    closed spec fn wf(self) -> bool {
        self.screen.wf() && self.ids.wf(self.screen)
    }

    closed spec fn width(self) -> u16 {
        self.screen.width
    }

    closed spec fn height(self) -> u16 {
        self.screen.height
    }

    closed spec fn destroyed(self) -> bool {
        self.released
    }

    closed spec fn window_id(self) -> u32 {
        self.ids.window
    }

    closed spec fn redraw_model(self) -> Seq<XRequest> {
        spec_redraw_requests(self.screen, self.ids)
    }

    closed spec fn destroy_emits(self) -> Seq<XRequest> {
        if self.released {
            Seq::empty()
        } else {
            spec_release_requests(self.ids)
        }
    }

    closed spec fn after_destroy(self) -> X11Renderer {
        X11Renderer { released: true, ..self }
    }

    fn dimensions(&self) -> (r: (u16, u16)) {
        (self.screen.width, self.screen.height)
    }

    fn redraw(&self) -> (r: Vec<XRequest>) {
        let v: Vec<XRequest> = vec![
            XRequest::CopyArea {
                src: self.ids.pixmap,
                dst: self.screen.root,
                gc: self.ids.gc,
                src_x: 0,
                src_y: 0,
                dst_x: 0,
                dst_y: 0,
                width: self.screen.width,
                height: self.screen.height,
            },
            XRequest::Flush,
        ];
        proof {
            assert(v@ =~= spec_redraw_requests(self.screen, self.ids));
            assert(contains_full_copy(v@, self.screen.width, self.screen.height)) by {
                assert(v@[0] matches XRequest::CopyArea { src_x, .. } && src_x == 0);
            }
        }
        v
    }

    fn destroy(&mut self) -> (r: Vec<XRequest>) {
        if self.released {
            let v: Vec<XRequest> = Vec::new();
            proof {
                assert(v@ =~= old(self).destroy_emits());
                assert(*self == old(self).after_destroy());
            }
            v
        } else {
            self.released = true;
            let v: Vec<XRequest> = vec![
                XRequest::FreeGc { gc: self.ids.gc },
                XRequest::FreePixmap { pixmap: self.ids.pixmap },
                XRequest::DestroyWindow { window: self.ids.window },
                XRequest::Flush,
            ];
            proof {
                assert(v@ =~= spec_release_requests(self.ids));
                assert(forall|id: u32| release_count(v@, id) <= 1) by {
                    assert forall|id: u32| release_count(v@, id) <= 1 by {
                        reveal_with_fuel(release_count, 5);
                    }
                }
            }
            v
        }
    }

    fn native_window(&self) -> (r: u32) {
        self.ids.window
    }
}

/// Every window and every offscreen buffer the setup plan creates has exactly
/// the screen's dimensions.
pub proof fn setup_sizes_match_screen(screen: ScreenDescriptor, ids: ResourceIds)
    requires
        screen.wf(),
        ids.wf(screen),
    ensures
        forall|i: int|
            0 <= i < spec_setup_requests(screen, ids).len() ==> ((#[trigger] spec_setup_requests(
                screen,
                ids,
            )[i]) matches XRequest::CreateWindow { width, height, .. } ==> width == screen.width
                && height == screen.height),
        forall|i: int|
            0 <= i < spec_setup_requests(screen, ids).len() ==> ((#[trigger] spec_setup_requests(
                screen,
                ids,
            )[i]) matches XRequest::CreatePixmap { width, height, .. } ==> width == screen.width
                && height == screen.height),
{
}

/// Both window-manager hint atoms are resolved before any other setup work:
/// the plan's first two requests intern the always-above and always-below
/// names, in that order, and no other request precedes them.
pub proof fn setup_resolves_atoms_first(screen: ScreenDescriptor, ids: ResourceIds)
    requires
        screen.wf(),
        ids.wf(screen),
    ensures
        spec_setup_requests(screen, ids)[0] matches XRequest::InternAtom { atom } && atom
            == WmStateAtom::Above,
        spec_setup_requests(screen, ids)[1] matches XRequest::InternAtom { atom } && atom
            == WmStateAtom::Below,
{
}

/// Every window the setup plan creates has the override-redirect attribute
/// set, and the plan maps the window strictly before restacking it to the
/// bottom.
pub proof fn setup_orders_window_management(screen: ScreenDescriptor, ids: ResourceIds)
    requires
        screen.wf(),
        ids.wf(screen),
    ensures
        forall|i: int|
            0 <= i < spec_setup_requests(screen, ids).len() ==> ((#[trigger] spec_setup_requests(
                screen,
                ids,
            )[i]) matches XRequest::CreateWindow { override_redirect, .. } ==> override_redirect),
        exists|i: int, j: int|
            0 <= i < j < spec_setup_requests(screen, ids).len() && spec_setup_requests(screen, ids)[i]
                is MapWindow && spec_setup_requests(screen, ids)[j] is StackBelow,
        ends_with_flush(spec_setup_requests(screen, ids)),
{
    let s = spec_setup_requests(screen, ids);
    assert(s[5] is MapWindow && s[6] is StackBelow);
}

/// A redraw planned before anything was drawn into the offscreen buffer is
/// always legal: its one copy reads exactly the full rectangle of the buffer
/// the setup plan created, whose size equals the surface's dimensions, so a
/// possibly-blank buffer is copied in full and never out of bounds.
pub proof fn redraw_always_legal(s: X11Renderer)
    requires
        s.wf(),
        !s.destroyed(),
    ensures
        contains_full_copy(s.redraw_model(), s.width(), s.height()),
        ends_with_flush(s.redraw_model()),
        s.redraw_model()[0] matches XRequest::CopyArea { src, width, height, .. } && src
            == s.ids().pixmap && width == s.width() && height == s.height(),
        spec_setup_requests(s.screen(), s.ids())[3] matches XRequest::CreatePixmap {
            pixmap,
            width,
            height,
            ..
        } && pixmap == s.ids().pixmap && width == s.width() && height == s.height(),
{
    let m = s.redraw_model();
    assert(m[0] matches XRequest::CopyArea { src_x, .. } && src_x == 0);
}

/// Releasing a surface is idempotent: a second destroy changes nothing and
/// issues no requests, and across both calls every identifier is released at
/// most once — no double-free is ever planned.
pub proof fn destroy_twice_frees_once(s: X11Renderer)
    requires
        s.wf(),
    ensures
        s.after_destroy().after_destroy() == s.after_destroy(),
        s.after_destroy().destroy_emits() =~= Seq::<XRequest>::empty(),
        forall|id: u32|
            release_count(s.destroy_emits() + s.after_destroy().destroy_emits(), id) <= 1,
{
    assert forall|id: u32|
        release_count(s.destroy_emits() + s.after_destroy().destroy_emits(), id) <= 1 by {
        crate::xproto::lemma_release_count_append(
            s.destroy_emits(),
            s.after_destroy().destroy_emits(),
            id,
        );
        reveal_with_fuel(release_count, 5);
        assert(release_count(s.after_destroy().destroy_emits(), id) == 0);
    }
}

/// Assemble the reference wallpaper surface from a screen snapshot and a set
/// of allocated identifiers. Succeeds exactly when the screen has a non-empty
/// area and the identifiers are usable; the result then owns exactly those
/// values and is live. No partially-usable surface is ever returned.
pub fn new_wallpaper_surface(screen: ScreenDescriptor, ids: ResourceIds) -> (r: Result<
    X11Renderer,
    SetupError,
>)
    ensures
        r is Ok <==> screen.wf() && ids.wf(screen),
        !screen.wf() ==> r == Err::<X11Renderer, SetupError>(SetupError::BadGeometry),
        screen.wf() && !ids.wf(screen) ==> r == Err::<X11Renderer, SetupError>(
            SetupError::BadIdentifiers,
        ),
        r matches Ok(s) ==> s.wf() && !s.destroyed() && s.screen() == screen && s.ids() == ids
            && s.width() == screen.width && s.height() == screen.height && s.window_id()
            == ids.window && s.redraw_model() == spec_redraw_requests(screen, ids)
            && s.destroy_emits() == spec_release_requests(ids),
{
    if screen.width == 0 || screen.height == 0 {
        Err(SetupError::BadGeometry)
    } else if ids.window == 0 || ids.pixmap == 0 || ids.gc == 0 || ids.window == ids.pixmap
        || ids.window == ids.gc || ids.pixmap == ids.gc || ids.window == screen.root
        || ids.pixmap == screen.root || ids.gc == screen.root {
        Err(SetupError::BadIdentifiers)
    } else {
        Ok(X11Renderer { screen, ids, released: false })
    }
}

} // verus!
