use vstd::prelude::*;

verus! {

/// The pointer bookkeeping of the cube's mouse-drag rotation: whether a drag
/// is in progress and where the pointer was last seen. Each move during a
/// drag yields the pixel displacement since the previous position, which
/// the caller turns into yaw and pitch.
pub struct MouseDragTracker {
    dragging: bool,
    last_x: i32,
    last_y: i32,
}

impl MouseDragTracker {
    /// Whether a drag is in progress.
    pub closed spec fn is_dragging(self) -> bool {
        self.dragging
    }

    /// The last pointer position seen.
    pub closed spec fn last(self) -> (i32, i32) {
        (self.last_x, self.last_y)
    }

    /// No drag in progress, pointer at the origin.
    pub fn new() -> (tracker: MouseDragTracker)
        ensures
            !tracker.is_dragging(),
            tracker.last() == (0i32, 0i32),
    {
        MouseDragTracker { dragging: false, last_x: 0, last_y: 0 }
    }

    /// Whether a drag is in progress.
    pub fn dragging(&self) -> (dragging: bool)
        ensures
            dragging == self.is_dragging(),
    {
        self.dragging
    }

    /// The last pointer position seen.
    pub fn last_position(&self) -> (position: (i32, i32))
        ensures
            position == self.last(),
    {
        (self.last_x, self.last_y)
    }

    /// A mouse button went down at `(x, y)`: a drag starts there.
    pub fn start_drag(&mut self, x: i32, y: i32)
        ensures
            final(self).is_dragging(),
            final(self).last() == (x, y),
    {
        self.dragging = true;
        self.last_x = x;
        self.last_y = y;
    }

    /// The pointer moved to `(x, y)`. During a drag this returns the
    /// displacement `(x - last_x, y - last_y)` and remembers `(x, y)`;
    /// otherwise nothing changes and the move is ignored.
    pub fn drag_to(&mut self, x: i32, y: i32) -> (delta: Option<(i32, i32)>)
        requires
            old(self).is_dragging() ==> i32::MIN <= x - old(self).last().0 <= i32::MAX,
            old(self).is_dragging() ==> i32::MIN <= y - old(self).last().1 <= i32::MAX,
        ensures
            final(self).is_dragging() == old(self).is_dragging(),
            old(self).is_dragging() ==> {
                &&& delta == Some(((x - old(self).last().0) as i32, (y - old(self).last().1) as i32))
                &&& final(self).last() == (x, y)
            },
            !old(self).is_dragging() ==> delta is None && final(self).last() == old(self).last(),
    {
        if self.dragging {
            let delta_x = x - self.last_x;
            let delta_y = y - self.last_y;
            self.last_x = x;
            self.last_y = y;
            Some((delta_x, delta_y))
        } else {
            None
        }
    }

    /// The mouse button went up: the drag ends.
    pub fn stop_drag(&mut self)
        ensures
            !final(self).is_dragging(),
            final(self).last() == old(self).last(),
    {
        self.dragging = false;
    }
}

} // verus!
