//! Working-directory registry: a single shared cell holding the default
//! directory used by check invocations that do not carry their own. Callers
//! that share it across tasks wrap it in a read/write lock; every method
//! here takes the whole cell, so a reader after a completed `set` sees the
//! new value.

use vstd::prelude::*;

verus! {

/// The process-wide default working directory, empty until set.
pub struct WorkingDirRegistry {
    cwd: Option<String>,
}

impl View for WorkingDirRegistry {
    type V = Option<Seq<char>>;

    closed spec fn view(&self) -> Option<Seq<char>> {
        self.cwd.deep_view()
    }
}

impl WorkingDirRegistry {
    /// The registry starts empty.
    pub fn new() -> (reg: WorkingDirRegistry)
        ensures
            reg@ is None,
    {
        WorkingDirRegistry { cwd: None }
    }

    /// The most recently set value, or nothing if none was ever set.
    pub fn get(&self) -> (r: Option<String>)
        ensures
            r.deep_view() == self@,
    {
        match &self.cwd {
            Some(s) => Some(s.clone()),
            None => None,
        }
    }

    /// Replace the stored value entirely — clearing it when given nothing —
    /// and return the now-current value.
    pub fn set(&mut self, p: Option<String>) -> (cur: Option<String>)
        ensures
            final(self)@ == p.deep_view(),
            cur.deep_view() == p.deep_view(),
    {
        self.cwd = p;
        self.get()
    }
}

} // verus!
