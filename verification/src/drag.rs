//! The drag target: turns the mouse presses, moves and releases over an
//! element into drag start, drag and drag end events, with the position of
//! the mouse relative to the element where the drag began.
use vstd::prelude::*;

verus! {

/// Where the mouse is, relative to the element, during a drag.
#[derive(Debug, Clone, Copy, PartialEq, Eq, Structural)]
pub struct DragEvent {
    pub offset_x: i32,
    pub offset_y: i32,
}

/// A drag in progress: the page position and element offset where it began.
#[derive(Debug, Clone, Copy, PartialEq, Eq, Structural)]
pub struct DragState {
    pub origin_x: i32,
    pub origin_y: i32,
    pub offset_x: i32,
    pub offset_y: i32,
}

/// The mouse events a drag target receives, with the positions the page
/// reports: `page_*` on the page, `offset_*` within the element.
#[derive(Debug, Clone, Copy, PartialEq, Eq, Structural)]
pub enum DragTargetMsg {
    MouseDown { page_x: i32, page_y: i32, offset_x: i32, offset_y: i32 },
    MouseMove { page_x: i32, page_y: i32 },
    MouseUp { page_x: i32, page_y: i32 },
}

/// The events a drag target hands to its owner.
#[derive(Debug, Clone, Copy, PartialEq, Eq, Structural)]
pub enum DragNotice {
    Start(DragEvent),
    Drag(DragEvent),
    End(DragEvent),
}

/// What a drag target does with one event: whether to re-render, the event
/// to hand on if any, and whether to begin listening to the whole window's
/// mouse moves and releases (which stop when the drag ends).
#[derive(Debug, Clone, Copy, PartialEq, Eq, Structural)]
pub struct DragUpdate {
    pub render: bool,
    pub notice: Option<DragNotice>,
    pub listen: bool,
}

/// A drag target's state: the drag in progress, if any.
#[derive(Debug, Clone, Copy, PartialEq, Eq, Structural)]
pub struct DragTarget {
    pub drag_state: Option<DragState>,
}

/// Whether a mouse event with these buttons held starts or continues a
/// drag: only the primary button alone does.
pub fn accepts_buttons(buttons: u16) -> (r: bool)
    ensures
        r == (buttons == 1),
{
    buttons == 1
}

/// The mouse's position relative to the element, for a drag that began at
/// `s`, when the mouse is at `page_x`, `page_y` on the page.
pub open spec fn drag_offset(s: DragState, page_x: i32, page_y: i32) -> DragEvent {
    DragEvent {
        offset_x: (s.offset_x + (page_x - s.origin_x)) as i32,
        offset_y: (s.offset_y + (page_y - s.origin_y)) as i32,
    }
}

/// Whether the relative position fits the coordinate type.
pub open spec fn drag_offset_fits(s: DragState, page_x: i32, page_y: i32) -> bool {
    &&& i32::MIN <= page_x - s.origin_x <= i32::MAX
    &&& i32::MIN <= page_y - s.origin_y <= i32::MAX
    &&& i32::MIN <= s.offset_x + (page_x - s.origin_x) <= i32::MAX
    &&& i32::MIN <= s.offset_y + (page_y - s.origin_y) <= i32::MAX
}

fn offset_at(s: &DragState, page_x: i32, page_y: i32) -> (r: DragEvent)
    requires
        drag_offset_fits(*s, page_x, page_y),
    ensures
        r == drag_offset(*s, page_x, page_y),
{
    DragEvent {
        offset_x: s.offset_x + (page_x - s.origin_x),
        offset_y: s.offset_y + (page_y - s.origin_y),
    }
}

/// Whether the target can take `msg`: the relative position of a move or a
/// release during a drag must fit the coordinate type.
pub open spec fn drag_msg_acceptable(t: DragTarget, msg: DragTargetMsg) -> bool {
    match (t.drag_state, msg) {
        (Some(s), DragTargetMsg::MouseMove { page_x, page_y }) => drag_offset_fits(s, page_x, page_y),
        (Some(s), DragTargetMsg::MouseUp { page_x, page_y }) => drag_offset_fits(s, page_x, page_y),
        _ => true,
    }
}

impl DragTarget {
    /// A target with no drag in progress.
    pub fn new() -> (r: Self)
        ensures
            r.drag_state is None,
    {
        DragTarget { drag_state: None }
    }

    /// Takes one mouse event. A press starts a drag (unless one is under
    /// way) at the element offset of the press; moves report the offset of
    /// the mouse from there; a release ends the drag and re-renders.
    pub fn update(&mut self, msg: DragTargetMsg) -> (r: DragUpdate)
        requires
            drag_msg_acceptable(*old(self), msg),
        ensures
            match (old(self).drag_state, msg) {
                (None, DragTargetMsg::MouseDown { page_x, page_y, offset_x, offset_y }) => {
                    &&& final(self).drag_state == Some(DragState { origin_x: page_x, origin_y: page_y, offset_x, offset_y })
                    &&& r == (DragUpdate {
                        render: false,
                        notice: Some(DragNotice::Start(DragEvent { offset_x, offset_y })),
                        listen: true,
                    })
                },
                (Some(s), DragTargetMsg::MouseMove { page_x, page_y }) => {
                    &&& *final(self) == *old(self)
                    &&& r == (DragUpdate {
                        render: false,
                        notice: Some(DragNotice::Drag(drag_offset(s, page_x, page_y))),
                        listen: false,
                    })
                },
                (Some(s), DragTargetMsg::MouseUp { page_x, page_y }) => {
                    &&& final(self).drag_state is None
                    &&& r == (DragUpdate {
                        render: true,
                        notice: Some(DragNotice::End(drag_offset(s, page_x, page_y))),
                        listen: false,
                    })
                },
                (None, DragTargetMsg::MouseUp { .. }) => {
                    &&& *final(self) == *old(self)
                    &&& r == (DragUpdate { render: true, notice: None, listen: false })
                },
                _ => {
                    &&& *final(self) == *old(self)
                    &&& r == (DragUpdate { render: false, notice: None, listen: false })
                },
            },
    {
        match msg {
            DragTargetMsg::MouseDown { page_x, page_y, offset_x, offset_y } => {
                if self.drag_state.is_none() {
                    self.drag_state = Some(DragState { origin_x: page_x, origin_y: page_y, offset_x, offset_y });
                    DragUpdate {
                        render: false,
                        notice: Some(DragNotice::Start(DragEvent { offset_x, offset_y })),
                        listen: true,
                    }
                } else {
                    DragUpdate { render: false, notice: None, listen: false }
                }
            },
            DragTargetMsg::MouseMove { page_x, page_y } => {
                match &self.drag_state {
                    Some(drag_state) => DragUpdate {
                        render: false,
                        notice: Some(DragNotice::Drag(offset_at(drag_state, page_x, page_y))),
                        listen: false,
                    },
                    None => DragUpdate { render: false, notice: None, listen: false },
                }
            },
            DragTargetMsg::MouseUp { page_x, page_y } => {
                match self.drag_state.take() {
                    Some(drag_state) => DragUpdate {
                        render: true,
                        notice: Some(DragNotice::End(offset_at(&drag_state, page_x, page_y))),
                        listen: false,
                    },
                    None => DragUpdate { render: true, notice: None, listen: false },
                }
            },
        }
    }
}

/// The offsets a drag reports are anchored where it began: at the page
/// position of the press the offset is the press's own offset, and moving
/// the mouse by some amount moves the offset by the same amount.
pub proof fn lemma_drag_offset_anchored(s: DragState, page_x: i32, page_y: i32)
    requires
        drag_offset_fits(s, page_x, page_y),
    ensures
        drag_offset(s, s.origin_x, s.origin_y) == (DragEvent { offset_x: s.offset_x, offset_y: s.offset_y }),
        drag_offset(s, page_x, page_y).offset_x - s.offset_x == page_x - s.origin_x,
        drag_offset(s, page_x, page_y).offset_y - s.offset_y == page_y - s.origin_y,
{
}

} // verus!
