//! The editor window's bookkeeping (its size and whether its user interface
//! is open) and the knob's drag sensitivity. The window and its drawing live
//! with the host glue.
use vstd::prelude::*;

verus! {

/// The editor window's size when none is given.
pub open spec fn default_size() -> (i32, i32) {
    (400, 400)
}

/// The editor's state as the host sees it.
pub struct EditorState {
    size: (i32, i32),
    open: bool,
}

impl EditorState {
    /// The window size.
    pub closed spec fn spec_size(&self) -> (i32, i32) {
        self.size
    }

    /// Whether the user interface is open.
    pub closed spec fn spec_open(&self) -> bool {
        self.open
    }

    /// A closed editor of the default size, 400 by 400.
    pub fn new() -> (e: EditorState)
        ensures
            e.spec_size() == default_size(),
            !e.spec_open(),
    {
        EditorState { size: (400, 400), open: false }
    }

    /// A closed editor of the given size.
    pub fn with_size(size: (i32, i32)) -> (e: EditorState)
        ensures
            e.spec_size() == size,
            !e.spec_open(),
    {
        EditorState { size, open: false }
    }

    /// The window size.
    pub fn size(&self) -> (s: (i32, i32))
        ensures
            s == self.spec_size(),
    {
        self.size
    }

    /// The window position: always the top left corner of the parent.
    pub fn position(&self) -> (p: (i32, i32))
        ensures
            p == (0i32, 0i32),
    {
        (0, 0)
    }

    /// Whether an idle tick must update the user interface: exactly while
    /// it is open.
    pub fn idle(&self) -> (update: bool)
        ensures
            update == self.spec_open(),
    {
        self.open
    }

    /// Closes the user interface.
    pub fn close(&mut self)
        ensures
            !final(self).spec_open(),
            final(self).spec_size() == old(self).spec_size(),
    {
        self.open = false;
    }

    /// Records an attempt to open the user interface, `created` telling
    /// whether its window could be created; a failed attempt leaves an
    /// interface that was open before open. Returns whether it is open now.
    pub fn open(&mut self, created: bool) -> (is_open: bool)
        ensures
            final(self).spec_open() == (old(self).spec_open() || created),
            is_open == final(self).spec_open(),
            final(self).spec_size() == old(self).spec_size(),
    {
        if created {
            self.open = true;
        }
        self.open
    }

    /// Whether the user interface is open.
    pub fn is_open(&self) -> (o: bool)
        ensures
            o == self.spec_open(),
    {
        self.open
    }
}

/// The mouse button that drags the attack knob.
#[derive(PartialEq, Eq, Structural, Clone, Copy, Debug)]
pub enum DragButton {
    Left,
    Right,
    Middle,
    Other(u8),
}

/// How far one unit of vertical mouse movement turns the knob, relative to
/// a left-button drag: 1 with the left button, 5 with any other.
pub fn knob_drag_scale(button: DragButton) -> (scale: u8)
    ensures
        scale == (if button == DragButton::Left { 1u8 } else { 5u8 }),
{
    match button {
        DragButton::Left => 1,
        _ => 5,
    }
}

} // verus!
