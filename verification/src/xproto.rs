//! Model of the windowing-system protocol requests the backend issues, and
//! spec-level properties of request sequences.

use vstd::prelude::*;

verus! {

/// The two window-manager hint atoms the backend resolves by name before any
/// other setup work.
#[derive(Clone, Copy, PartialEq, Eq, Structural, Debug)]
pub enum WmStateAtom {
    /// Marks a window as always above others.
    Above,
    /// Marks a window as always below others.
    Below,
}

impl WmStateAtom {
    /// The protocol-level name under which this atom is resolved.
    pub fn name(&self) -> (r: &'static str)
        ensures
            *self is Above ==> r@ == "_NET_WM_STATE_ABOVE"@,
            *self is Below ==> r@ == "_NET_WM_STATE_BELOW"@,
    {
        match self {
            WmStateAtom::Above => "_NET_WM_STATE_ABOVE",
            WmStateAtom::Below => "_NET_WM_STATE_BELOW",
        }
    }
}

/// One windowing-system protocol request, reduced to the fields the wallpaper
/// backend decides. The unverified shell translates each variant into the
/// corresponding call on the real display connection.
#[derive(Clone, Copy, PartialEq, Eq, Structural, Debug)]
pub enum XRequest {
    /// Resolve a window-manager hint atom by name.
    InternAtom { atom: WmStateAtom },
    /// Create a window of the given geometry as a child of `parent`.
    CreateWindow {
        depth: u8,
        window: u32,
        parent: u32,
        x: i16,
        y: i16,
        width: u16,
        height: u16,
        border_width: u16,
        override_redirect: bool,
    },
    /// Create an offscreen buffer of the given size for `drawable`.
    CreatePixmap { depth: u8, pixmap: u32, drawable: u32, width: u16, height: u16 },
    /// Create a graphics context on `drawable` with the given foreground.
    CreateGc { gc: u32, drawable: u32, foreground: u32 },
    /// Show the window.
    MapWindow { window: u32 },
    /// Restack the window to the bottom of the stacking order.
    StackBelow { window: u32 },
    /// Server-side copy of a rectangle from `src` to `dst`.
    CopyArea {
        src: u32,
        dst: u32,
        gc: u32,
        src_x: i16,
        src_y: i16,
        dst_x: i16,
        dst_y: i16,
        width: u16,
        height: u16,
    },
    /// Release a graphics context identifier.
    FreeGc { gc: u32 },
    /// Release an offscreen buffer identifier.
    FreePixmap { pixmap: u32 },
    /// Destroy a window identifier.
    DestroyWindow { window: u32 },
    /// Flush all queued protocol requests to the server.
    Flush,
}

/// Whether the request releases (frees or destroys) the identifier `id`.
pub open spec fn releases_id(r: XRequest, id: u32) -> bool {
    match r {
        XRequest::FreeGc { gc } => gc == id,
        XRequest::FreePixmap { pixmap } => pixmap == id,
        XRequest::DestroyWindow { window } => window == id,
        _ => false,
    }
}

/// How many requests of the sequence release the identifier `id`.
pub open spec fn release_count(s: Seq<XRequest>, id: u32) -> nat
    decreases s.len(),
{
    if s.len() == 0 {
        0
    } else {
        release_count(s.drop_last(), id) + if releases_id(s.last(), id) { 1nat } else { 0nat }
    }
}

/// The sequence contains a server-side copy of the full `width` by `height`
/// rectangle, anchored at the origin on both ends.
pub open spec fn contains_full_copy(s: Seq<XRequest>, width: u16, height: u16) -> bool {
    exists|i: int|
        0 <= i < s.len() && ((#[trigger] s[i]) matches XRequest::CopyArea {
            src_x, src_y, dst_x, dst_y, width: w, height: h, ..
        } && src_x == 0 && src_y == 0 && dst_x == 0 && dst_y == 0 && w == width && h == height)
}

/// The sequence is non-empty and its last request flushes the connection, so
/// everything before it is guaranteed to reach the server.
pub open spec fn ends_with_flush(s: Seq<XRequest>) -> bool {
    s.len() > 0 && s.last() is Flush
}

/// Appending requests that release nothing, to a sequence that releases an
/// identifier at most once, still releases it at most once in total.
pub proof fn lemma_release_count_append(a: Seq<XRequest>, b: Seq<XRequest>, id: u32)
    ensures
        release_count(a + b, id) == release_count(a, id) + release_count(b, id),
    decreases b.len(),
{
    if b.len() == 0 {
        assert(a + b =~= a);
    } else {
        lemma_release_count_append(a, b.drop_last(), id);
        assert((a + b).drop_last() =~= a + b.drop_last());
        assert((a + b).last() == b.last());
    }
}

} // verus!
