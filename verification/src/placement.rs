//! One-shot placement of the panel's own window.
//!
//! The window manager lists every client window with its address and
//! title.  The panel finds the first client that carries its own title,
//! computes where that window belongs on screen, and remembers that it has
//! done so: placement happens exactly once per process, retrying on later
//! passes only for as long as the window has not appeared in the listing.

use vstd::prelude::*;
use crate::text::str_eq;

verus! {

/// Horizontal extent of the panel window in pixels.
pub const PANEL_WIDTH: i32 = 270;

/// Vertical extent of the panel window in pixels.
pub const PANEL_HEIGHT: i32 = 400;

/// Gap kept between the panel and the right screen edge.
pub const PANEL_MARGIN: i32 = 30;

/// Distance of the panel from the top screen edge.
pub const PANEL_TOP: i32 = 60;

/// What the panel reads of one window-manager client: where to address it
/// and what its title says.
pub struct ClientWindow {
    pub address: String,
    pub title: String,
}

/// Whether a client window is the panel's own, by its title.
pub open spec fn is_panel_window(w: ClientWindow) -> bool {
    w.title@ == "Action Center"@
}

/// Index of the first client that carries the panel's title, if any.
pub open spec fn first_panel_window(ws: Seq<ClientWindow>) -> Option<int>
    decreases ws.len(),
{
    if ws.len() == 0 {
        None
    } else if is_panel_window(ws[0]) {
        Some(0)
    } else {
        match first_panel_window(ws.drop_first()) {
            None => None,
            Some(i) => Some(i + 1),
        }
    }
}

proof fn lemma_panel_window_found(ws: Seq<ClientWindow>, i: int)
    requires
        0 <= i < ws.len(),
        forall|j: int| 0 <= j < i ==> !is_panel_window(#[trigger] ws[j]),
        is_panel_window(ws[i]),
    ensures
        first_panel_window(ws) == Some(i),
    decreases i,
{
    if i > 0 {
        assert(ws.drop_first()[i - 1] == ws[i]);
        assert forall|j: int| 0 <= j < i - 1 implies !is_panel_window(
            #[trigger] ws.drop_first()[j],
        ) by {
            assert(ws.drop_first()[j] == ws[j + 1]);
        }
        lemma_panel_window_found(ws.drop_first(), i - 1);
    }
}

proof fn lemma_panel_window_absent(ws: Seq<ClientWindow>)
    requires
        forall|j: int| 0 <= j < ws.len() ==> !is_panel_window(#[trigger] ws[j]),
    ensures
        first_panel_window(ws) is None,
    decreases ws.len(),
{
    if ws.len() > 0 {
        assert forall|j: int| 0 <= j < ws.len() - 1 implies !is_panel_window(
            #[trigger] ws.drop_first()[j],
        ) by {
            assert(ws.drop_first()[j] == ws[j + 1]);
        }
        lemma_panel_window_absent(ws.drop_first());
    }
}

/// Find the panel's own window in the client listing: the first client
/// whose title matches.
pub fn find_panel_window(clients: &Vec<ClientWindow>) -> (r: Option<usize>)
    ensures
        match r {
            Some(i) => i < clients@.len() && first_panel_window(clients@) == Some(i as int),
            None => first_panel_window(clients@) is None,
        },
{
    let count = clients.len();
    let mut i: usize = 0;
    while i < count
        invariant
            i <= count,
            count == clients@.len(),
            forall|j: int| 0 <= j < i ==> !is_panel_window(#[trigger] clients@[j]),
        decreases count - i,
    {
        if str_eq(clients[i].title.as_str(), "Action Center") {
            proof {
                lemma_panel_window_found(clients@, i as int);
            }
            return Some(i);
        }
        i += 1;
    }
    proof {
        lemma_panel_window_absent(clients@);
    }
    None
}

/// Exact pixel geometry for a window.
pub struct WidgetPlacement {
    pub x: i32,
    pub y: i32,
    pub width: i32,
    pub height: i32,
}

/// Where the panel belongs on a monitor of the given width: its top right
/// corner region, inset by the margin.
pub fn widget_placement(monitor_width: i32) -> (p: WidgetPlacement)
    requires
        PANEL_WIDTH + PANEL_MARGIN <= monitor_width,
    ensures
        p.x == monitor_width - PANEL_WIDTH - PANEL_MARGIN,
        p.y == PANEL_TOP,
        p.width == PANEL_WIDTH,
        p.height == PANEL_HEIGHT,
{
    WidgetPlacement {
        x: monitor_width - PANEL_WIDTH - PANEL_MARGIN,
        y: PANEL_TOP,
        width: PANEL_WIDTH,
        height: PANEL_HEIGHT,
    }
}

/// Remembers whether the panel window has been placed already.
pub struct Positioner {
    pub positioned: bool,
}

impl Positioner {
    pub fn new() -> (p: Positioner)
        ensures
            !p.positioned,
    {
        Positioner { positioned: false }
    }

    /// Decide a placement for this pass.  Nothing is returned once the
    /// window has been placed, and nothing while its title is missing
    /// from the listing (a later pass retries); otherwise the first
    /// matching client's address is handed out together with the
    /// geometry, and the placement is recorded as done.
    pub fn take_placement(&mut self, clients: &Vec<ClientWindow>, monitor_width: i32) -> (r:
        Option<(String, WidgetPlacement)>)
        requires
            PANEL_WIDTH + PANEL_MARGIN <= monitor_width,
        ensures
            old(self).positioned ==> r is None && *final(self) == *old(self),
            !old(self).positioned ==> match first_panel_window(clients@) {
                None => r is None && *final(self) == *old(self),
                Some(i) => final(self).positioned && (r matches Some(ap) && (ap.0@
                    == clients@[i].address@ && ap.1.x == monitor_width - PANEL_WIDTH - PANEL_MARGIN
                    && ap.1.y == PANEL_TOP && ap.1.width == PANEL_WIDTH && ap.1.height
                    == PANEL_HEIGHT)),
            },
    {
        if self.positioned {
            return None;
        }
        match find_panel_window(clients) {
            None => None,
            Some(i) => {
                let address = clients[i].address.clone();
                self.positioned = true;
                Some((address, widget_placement(monitor_width)))
            },
        }
    }
}

} // verus!
