use vstd::prelude::*;

verus! {

/// The two application signals whose class handlers this crate overrides.
#[derive(Clone, Copy, Debug, PartialEq, Eq, Structural)]
pub enum WindowSignal {
    Added,
    Removed,
}

/// The window-added and window-removed slots of an application class.
/// `H` is the caller's handler type; an empty slot means the class does
/// nothing for that signal.
#[derive(Clone, Copy, Debug)]
pub struct ApplicationVfuncs<H> {
    pub window_added: Option<H>,
    pub window_removed: Option<H>,
}

impl<H: Copy> ApplicationVfuncs<H> {
    /// The slot that handles `signal`.
    pub open spec fn slot(self, signal: WindowSignal) -> Option<H> {
        match signal {
            WindowSignal::Added => self.window_added,
            WindowSignal::Removed => self.window_removed,
        }
    }

    /// Points both window slots at the subclass's dispatching handlers.
    pub fn override_vfuncs(&mut self, added: H, removed: H)
        ensures
            final(self).window_added == Some(added),
            final(self).window_removed == Some(removed),
    {
        self.window_added = Some(added);
        self.window_removed = Some(removed);
    }

    /// What chaining up from a subclass runs for `signal`, with `self` the
    /// parent class's slots: the parent's handler if it has one, else nothing.
    pub fn parent_handler(&self, signal: WindowSignal) -> (r: Option<H>)
        ensures
            r == self.slot(signal),
    {
        match signal {
            WindowSignal::Added => self.window_added,
            WindowSignal::Removed => self.window_removed,
        }
    }

    /// The parent class's window-added handler that chaining up calls.
    pub fn parent_window_added(&self) -> (r: Option<H>)
        ensures
            r == self.window_added,
    {
        self.parent_handler(WindowSignal::Added)
    }

    /// The parent class's window-removed handler that chaining up calls.
    pub fn parent_window_removed(&self) -> (r: Option<H>)
        ensures
            r == self.window_removed,
    {
        self.parent_handler(WindowSignal::Removed)
    }
}

} // verus!
