//! The panel controller: the visibility state machine of the single overlay
//! window, and the pre-show positioning that centers the panel on the display
//! holding the pointer.
//!
//! The controller decides; the surrounding process performs. Each transition
//! returns the ordered list of window operations ([`PanelAction`]) that the
//! caller must issue to the OS surface, so the state here always reflects the
//! instructions most recently handed out.

use vstd::prelude::*;

verus! {

/// Bound on every screen coordinate and extent this module accepts, so that
/// the centering arithmetic stays far from `i64` overflow.
pub const COORD_BOUND: i64 = 0x1_0000_0000;

/// The externally observable visibility of the overlay panel.
#[derive(Copy, Debug, PartialEq, Eq, Structural)]
pub enum PanelState {
    Hidden,
    Visible,
}

impl Clone for PanelState {
    fn clone(&self) -> (res: Self)
        ensures
            res == *self,
    {
        *self
    }
}

/// A point in global screen coordinates.
#[derive(Copy, Debug, PartialEq, Eq, Structural)]
pub struct Point {
    pub x: i64,
    pub y: i64,
}

impl Clone for Point {
    fn clone(&self) -> (res: Self)
        ensures
            res == *self,
    {
        *self
    }
}

/// An axis-aligned rectangle in global screen coordinates: the visible
/// bounds of one display.
#[derive(Copy, Debug, PartialEq, Eq, Structural)]
pub struct Rect {
    pub x: i64,
    pub y: i64,
    pub width: i64,
    pub height: i64,
}

impl Clone for Rect {
    fn clone(&self) -> (res: Self)
        ensures
            res == *self,
    {
        *self
    }
}

pub open spec fn rect_wf(r: Rect) -> bool {
    &&& -COORD_BOUND <= r.x <= COORD_BOUND
    &&& -COORD_BOUND <= r.y <= COORD_BOUND
    &&& 0 <= r.width <= COORD_BOUND
    &&& 0 <= r.height <= COORD_BOUND
}

/// Everything the positioning step reads: the tracked displays, the primary
/// display to fall back to, the current pointer location, and the panel's
/// own size.
pub struct ScreenLayout {
    pub displays: Vec<Rect>,
    pub primary: Rect,
    pub pointer: Point,
    pub panel_width: i64,
    pub panel_height: i64,
}

/// The mathematical value of a [`ScreenLayout`].
pub struct ScreenLayoutV {
    pub displays: Seq<Rect>,
    pub primary: Rect,
    pub pointer: Point,
    pub panel_width: i64,
    pub panel_height: i64,
}

impl View for ScreenLayout {
    type V = ScreenLayoutV;

    open spec fn view(&self) -> ScreenLayoutV {
        ScreenLayoutV {
            displays: self.displays@,
            primary: self.primary,
            pointer: self.pointer,
            panel_width: self.panel_width,
            panel_height: self.panel_height,
        }
    }
}

impl ScreenLayout {
    pub open spec fn wf(self) -> bool {
        &&& forall|i: int| 0 <= i < self.displays@.len() ==> rect_wf(#[trigger] self.displays@[i])
        &&& rect_wf(self.primary)
        &&& -COORD_BOUND <= self.pointer.x <= COORD_BOUND
        &&& -COORD_BOUND <= self.pointer.y <= COORD_BOUND
        &&& 0 <= self.panel_width <= COORD_BOUND
        &&& 0 <= self.panel_height <= COORD_BOUND
    }
}

/// Whether `p` lies within the bounds of `r`.
pub open spec fn rect_contains(r: Rect, p: Point) -> bool {
    &&& r.x <= p.x < r.x + r.width
    &&& r.y <= p.y < r.y + r.height
}

/// The display that the pointer is on, searched from index `i` onward in
/// tracking order; the primary display when the pointer is on none.
pub open spec fn spec_pick_display(displays: Seq<Rect>, primary: Rect, p: Point, i: int) -> Rect
    decreases displays.len() - i,
{
    if i < 0 || i >= displays.len() {
        primary
    } else if rect_contains(displays[i], p) {
        displays[i]
    } else {
        spec_pick_display(displays, primary, p, i + 1)
    }
}

/// Offset that centers an extent of `inner` within an extent of `outer`;
/// zero when the panel is larger than the display, pinning it to the
/// display's origin.
pub open spec fn center_offset(outer: int, inner: int) -> int {
    if inner <= outer {
        (outer - inner) / 2
    } else {
        0
    }
}

/// The top-left corner that centers the panel, horizontally and vertically,
/// within the display that [`spec_pick_display`] chooses.
pub open spec fn spec_show_point(l: ScreenLayoutV) -> Point {
    let d = spec_pick_display(l.displays, l.primary, l.pointer, 0);
    Point {
        x: (d.x + center_offset(d.width as int, l.panel_width as int)) as i64,
        y: (d.y + center_offset(d.height as int, l.panel_height as int)) as i64,
    }
}

/// One window operation that the caller must issue to the OS surface, in the
/// order returned.
#[derive(Copy, Debug, PartialEq, Eq, Structural)]
pub enum PanelAction {
    /// Move the panel window so its top-left corner is at the point.
    SetPosition(Point),
    /// Order the panel into the visible window list and make it key.
    ShowAndMakeKey,
    /// Order the panel out of the visible window list without destroying it.
    OrderOut,
}

impl Clone for PanelAction {
    fn clone(&self) -> (res: Self)
        ensures
            res == *self,
    {
        *self
    }
}

fn rect_contains_exec(r: &Rect, p: &Point) -> (res: bool)
    requires
        rect_wf(*r),
    ensures
        res == rect_contains(*r, *p),
{
    r.x <= p.x && p.x < r.x + r.width && r.y <= p.y && p.y < r.y + r.height
}

/// The display whose bounds contain the pointer, in tracking order, or the
/// primary display when the pointer is on no tracked display.
pub fn pick_display(layout: &ScreenLayout) -> (res: Rect)
    requires
        layout.wf(),
    ensures
        res == spec_pick_display(layout@.displays, layout@.primary, layout@.pointer, 0),
        rect_wf(res),
{
    let n = layout.displays.len();
    let mut i: usize = 0;
    while i < n
        invariant
            layout.wf(),
            n == layout.displays@.len(),
            0 <= i <= n,
            spec_pick_display(layout@.displays, layout@.primary, layout@.pointer, 0)
                == spec_pick_display(layout@.displays, layout@.primary, layout@.pointer, i as int),
        decreases n - i,
    {
        if rect_contains_exec(&layout.displays[i], &layout.pointer) {
            return layout.displays[i];
        }
        i = i + 1;
    }
    layout.primary
}

/// The top-left corner at which the panel is shown: centered within the
/// display that holds the pointer (the primary display as fallback).
pub fn position_for_show(layout: &ScreenLayout) -> (res: Point)
    requires
        layout.wf(),
    ensures
        res == spec_show_point(layout@),
{
    let d = pick_display(layout);
    let dx: i64 = if layout.panel_width <= d.width {
        (d.width - layout.panel_width) / 2
    } else {
        0
    };
    let dy: i64 = if layout.panel_height <= d.height {
        (d.height - layout.panel_height) / 2
    } else {
        0
    };
    Point { x: d.x + dx, y: d.y + dy }
}

/// One call a caller makes on the panel controller; the vocabulary of the
/// visibility model below.
#[derive(Copy, Debug, PartialEq, Eq, Structural)]
pub enum PanelOp {
    Show,
    Hide,
    Toggle,
    FocusResigned,
}

impl Clone for PanelOp {
    fn clone(&self) -> (res: Self)
        ensures
            res == *self,
    {
        *self
    }
}

/// The controller's transition on one call, with `Toggle` read against the
/// controller's own state.
pub open spec fn panel_step(st: PanelState, op: PanelOp) -> PanelState {
    match op {
        PanelOp::Show => PanelState::Visible,
        PanelOp::Hide => PanelState::Hidden,
        PanelOp::Toggle => if st == PanelState::Visible {
            PanelState::Hidden
        } else {
            PanelState::Visible
        },
        PanelOp::FocusResigned => PanelState::Hidden,
    }
}

pub open spec fn panel_run(st: PanelState, ops: Seq<PanelOp>) -> PanelState
    decreases ops.len(),
{
    if ops.len() == 0 {
        st
    } else {
        panel_run(panel_step(st, ops[0]), ops.drop_first())
    }
}

/// The plain boolean model of visibility: `Show`/`Hide` set it absolutely,
/// `Toggle` flips it, losing focus clears it.
pub open spec fn bool_step(b: bool, op: PanelOp) -> bool {
    match op {
        PanelOp::Show => true,
        PanelOp::Hide => false,
        PanelOp::Toggle => !b,
        PanelOp::FocusResigned => false,
    }
}

pub open spec fn bool_run(b: bool, ops: Seq<PanelOp>) -> bool
    decreases ops.len(),
{
    if ops.len() == 0 {
        b
    } else {
        bool_run(bool_step(b, ops[0]), ops.drop_first())
    }
}

/// Law: after any sequence of `show`/`hide`/`toggle`/focus-resign calls, the
/// controller's visibility equals what the plain boolean model predicts,
/// whenever the two start out agreeing.
pub proof fn lemma_visibility_matches_boolean_model(st: PanelState, b: bool, ops: Seq<PanelOp>)
    requires
        (st == PanelState::Visible) <==> b,
    ensures
        (panel_run(st, ops) == PanelState::Visible) <==> bool_run(b, ops),
    decreases ops.len(),
{
    if ops.len() > 0 {
        lemma_visibility_matches_boolean_model(
            panel_step(st, ops[0]),
            bool_step(b, ops[0]),
            ops.drop_first(),
        );
    }
}

/// Owns the overlay panel's visibility state machine. The state starts
/// `Hidden` at construction and lives for the whole process.
pub struct PanelController {
    pub state: PanelState,
}

impl PanelController {
    pub fn new() -> (res: Self)
        ensures
            res.state == PanelState::Hidden,
    {
        PanelController { state: PanelState::Hidden }
    }

    /// Shows the panel: positions it centered on the display holding the
    /// pointer, then orders it front and key. A no-op when already visible.
    pub fn show(&mut self, layout: &ScreenLayout) -> (acts: Vec<PanelAction>)
        requires
            layout.wf(),
        ensures
            final(self).state == PanelState::Visible,
            final(self).state == panel_step(old(self).state, PanelOp::Show),
            old(self).state == PanelState::Visible ==> acts@ =~= Seq::<PanelAction>::empty(),
            old(self).state == PanelState::Hidden ==> acts@ =~= seq![
                PanelAction::SetPosition(spec_show_point(layout@)),
                PanelAction::ShowAndMakeKey,
            ],
    {
        let mut acts: Vec<PanelAction> = Vec::new();
        if matches!(self.state, PanelState::Hidden) {
            let target = position_for_show(layout);
            acts.push(PanelAction::SetPosition(target));
            acts.push(PanelAction::ShowAndMakeKey);
            self.state = PanelState::Visible;
        }
        acts
    }

    /// Hides the panel: orders it out of the visible window list without
    /// destroying it. A no-op when already hidden.
    pub fn hide_panel(&mut self) -> (acts: Vec<PanelAction>)
        ensures
            final(self).state == PanelState::Hidden,
            final(self).state == panel_step(old(self).state, PanelOp::Hide),
            old(self).state == PanelState::Hidden ==> acts@ =~= Seq::<PanelAction>::empty(),
            old(self).state == PanelState::Visible ==> acts@ =~= seq![PanelAction::OrderOut],
    {
        let mut acts: Vec<PanelAction> = Vec::new();
        if matches!(self.state, PanelState::Visible) {
            acts.push(PanelAction::OrderOut);
            self.state = PanelState::Hidden;
        }
        acts
    }

    /// Toggles the panel against the OS-reported visibility flag, which is
    /// the source of truth: the window can be hidden by means outside this
    /// controller's control, so the flag, not the last-known state, decides
    /// the direction.
    pub fn toggle(&mut self, os_visible: bool, layout: &ScreenLayout) -> (acts: Vec<PanelAction>)
        requires
            layout.wf(),
        ensures
            final(self).state == (if os_visible {
                PanelState::Hidden
            } else {
                PanelState::Visible
            }),
            os_visible == (old(self).state == PanelState::Visible) ==> final(self).state
                == panel_step(old(self).state, PanelOp::Toggle),
            os_visible ==> acts@ =~= seq![PanelAction::OrderOut],
            !os_visible ==> acts@ =~= seq![
                PanelAction::SetPosition(spec_show_point(layout@)),
                PanelAction::ShowAndMakeKey,
            ],
    {
        let mut acts: Vec<PanelAction> = Vec::new();
        if os_visible {
            acts.push(PanelAction::OrderOut);
            self.state = PanelState::Hidden;
        } else {
            let target = position_for_show(layout);
            acts.push(PanelAction::SetPosition(target));
            acts.push(PanelAction::ShowAndMakeKey);
            self.state = PanelState::Visible;
        }
        acts
    }

    /// Reacts to the OS notification that the panel stopped being the key
    /// window: unconditionally hides, which gives the overlay its
    /// dismiss-on-click-away behavior. Always ends `Hidden`, from either
    /// prior state.
    pub fn on_focus_resigned(&mut self) -> (acts: Vec<PanelAction>)
        ensures
            final(self).state == PanelState::Hidden,
            final(self).state == panel_step(old(self).state, PanelOp::FocusResigned),
            old(self).state == PanelState::Hidden ==> acts@ =~= Seq::<PanelAction>::empty(),
            old(self).state == PanelState::Visible ==> acts@ =~= seq![PanelAction::OrderOut],
    {
        self.hide_panel()
    }
}

} // verus!
