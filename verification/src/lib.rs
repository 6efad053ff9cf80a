//! Verified core of a build-tool proxy: it watches an agent's tool-call
//! notifications for edits to Rust sources, tracks a dirty flag, and when a
//! conversational turn ends with pending edits it decides to run a `cargo
//! check`, filtering the tool's structured output down to diagnostics.

use vstd::prelude::*;

pub mod command;
pub mod diagnostics;
pub mod stderr_filter;
pub mod text;
pub mod tracker;
pub mod turn;
pub mod workdir;

pub use command::{assemble_result, should_report, BuildInvocation, CargoCommandJsonResult};
pub use diagnostics::{filter_json_messages, DiagnosticRecord};
pub use stderr_filter::filter_stderr;
pub use tracker::DirtyFlag;
pub use turn::{observe_tool_update, on_turn_result, StopReason, ToolCallStatus, ToolCallUpdate};
pub use workdir::WorkingDirRegistry;

verus! {

/// The proxy's verified state: the dirty flag flipped by observed tool-call
/// updates, and the process-wide default working directory. The adapter
/// around it forwards all traffic unchanged, feeds notifications and turn
/// results into these methods, and performs whatever invocation
/// `on_turn_result` hands back.
pub struct CargoProxy {
    pub dirty: DirtyFlag,
    pub workdir: WorkingDirRegistry,
}

impl CargoProxy {
    /// A fresh proxy: nothing dirty, no working directory set.
    pub fn new() -> (p: CargoProxy)
        ensures
            !p.dirty@,
            p.workdir@ is None,
    {
        CargoProxy { dirty: DirtyFlag::new(), workdir: WorkingDirRegistry::new() }
    }

    /// Observe one outbound tool-call status update: a completed edit to a
    /// source file sets the dirty flag; nothing else changes, and the update
    /// is forwarded by the caller either way.
    pub fn observe_tool_update(&mut self, u: &ToolCallUpdate)
        ensures
            final(self).dirty@ == (old(self).dirty@ || turn::update_marks_dirty(u)),
            final(self).workdir == old(self).workdir,
    {
        observe_tool_update(&mut self.dirty, u);
    }

    /// Handle a prompt-completion result after it was forwarded: exactly
    /// when the turn ended and a relevant edit is pending, the dirty flag is
    /// cleared and the check invocation to run is returned; a stop for any
    /// other reason leaves the tracker untouched and runs nothing.
    pub fn on_turn_result(&mut self, stop: StopReason) -> (inv: Option<BuildInvocation>)
        ensures
            stop != StopReason::EndOfTurn ==> final(self).dirty@ == old(self).dirty@ && inv is None,
            stop == StopReason::EndOfTurn ==> !final(self).dirty@,
            inv is Some <==> (stop == StopReason::EndOfTurn && old(self).dirty@),
            inv matches Some(i) ==> {
                &&& i.command@ == "check"@
                &&& i.args.deep_view() == Seq::<Seq<char>>::empty()
                &&& i.cwd.deep_view() == old(self).workdir@
                &&& !i.skip_json_format
            },
            final(self).workdir == old(self).workdir,
    {
        on_turn_result(&mut self.dirty, &self.workdir, stop)
    }

    /// Set (or clear) the default working directory and return the
    /// now-current value.
    pub fn set_working_dir(&mut self, p: Option<String>) -> (cur: Option<String>)
        ensures
            final(self).workdir@ == p.deep_view(),
            cur.deep_view() == p.deep_view(),
            final(self).dirty == old(self).dirty,
    {
        self.workdir.set(p)
    }
}

} // verus!
