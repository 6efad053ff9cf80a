//! The orchestration rules: the turn observer decides from a tool-call
//! status update whether a relevant source file was edited and flips the
//! dirty flag; the verification trigger decides at the end of a turn whether
//! a check invocation is warranted. Forwarding the observed traffic is the
//! caller's job and never depends on these decisions.

use crate::command::BuildInvocation;
use crate::tracker::DirtyFlag;
use crate::workdir::WorkingDirRegistry;
use vstd::prelude::*;
use vstd::string::StrSliceExecFns;

verus! {

/// The status carried by a tool-call status update.
#[derive(PartialEq, Eq, Structural, Clone, Copy, Debug)]
pub enum ToolCallStatus {
    Pending,
    InProgress,
    Completed,
    Failed,
}

/// One outbound tool-call status update: its status and the file locations
/// it reports as affected.
pub struct ToolCallUpdate {
    pub status: ToolCallStatus,
    pub locations: Vec<String>,
}

/// The stop condition of a prompt-completion result. Only `EndOfTurn` means
/// the agent finished its conversational turn.
#[derive(PartialEq, Eq, Structural, Clone, Copy, Debug)]
pub enum StopReason {
    EndOfTurn,
    MaxTokens,
    Cancelled,
    Other,
}

/// A path names a source file of the build tool's language when it ends in
/// the `.rs` extension, compared case-insensitively.
pub open spec fn path_is_source(p: Seq<char>) -> bool {
    &&& p.len() >= 3
    &&& p[p.len() - 3] == '.'
    &&& (p[p.len() - 2] == 'r' || p[p.len() - 2] == 'R')
    &&& (p[p.len() - 1] == 's' || p[p.len() - 1] == 'S')
}

/// A status update marks the state dirty when the tool call completed and
/// at least one affected location is a source file.
pub open spec fn update_marks_dirty(u: &ToolCallUpdate) -> bool {
    u.status == ToolCallStatus::Completed && exists|i: int|
        0 <= i < u.locations.len() && path_is_source(#[trigger] u.locations@[i]@)
}

/// Whether a path ends in the source-file extension, case-insensitively.
pub fn is_source_path(p: &str) -> (b: bool)
    ensures
        b == path_is_source(p@),
{
    let n: usize = p.unicode_len();
    if n < 3 {
        return false;
    }
    let dot = p.get_char(n - 3);
    let r = p.get_char(n - 2);
    let s = p.get_char(n - 1);
    dot == '.' && (r == 'r' || r == 'R') && (s == 's' || s == 'S')
}

/// Whether this status update reports a completed edit to a source file.
pub fn update_touches_source(u: &ToolCallUpdate) -> (b: bool)
    ensures
        b == update_marks_dirty(u),
{
    if !matches!(u.status, ToolCallStatus::Completed) {
        return false;
    }
    let mut i: usize = 0;
    while i < u.locations.len()
        invariant
            0 <= i <= u.locations.len(),
            u.status == ToolCallStatus::Completed,
            forall|j: int| 0 <= j < i ==> !path_is_source(#[trigger] u.locations@[j]@),
        decreases u.locations.len() - i,
    {
        if is_source_path(u.locations[i].as_str()) {
            proof {
                assert(path_is_source(u.locations@[i as int]@));
                assert(u.status == ToolCallStatus::Completed);
            }
            return true;
        }
        i = i + 1;
    }
    false
}

/// Observe one outbound tool-call status update: flip the dirty flag when
/// it reports a completed edit to a source file, and touch nothing else.
/// The update itself is forwarded by the caller unmodified, whatever this
/// decides.
pub fn observe_tool_update(flag: &mut DirtyFlag, u: &ToolCallUpdate)
    ensures
        final(flag)@ == (old(flag)@ || update_marks_dirty(u)),
{
    if update_touches_source(u) {
        flag.mark_dirty();
    }
}

/// Decide at the end of a turn whether to run a check. Only an end-of-turn
/// stop reason touches the dirty flag: it is then taken and cleared in one
/// step, and a pending edit yields the check invocation to run, with the
/// registry's working directory. Any other stop reason leaves the tracker
/// untouched and runs nothing. The prompt result itself is forwarded by the
/// caller before anything here runs.
pub fn on_turn_result(
    flag: &mut DirtyFlag,
    workdir: &WorkingDirRegistry,
    stop: StopReason,
) -> (inv: Option<BuildInvocation>)
    ensures
        stop != StopReason::EndOfTurn ==> final(flag)@ == old(flag)@ && inv is None,
        stop == StopReason::EndOfTurn ==> !final(flag)@,
        inv is Some <==> (stop == StopReason::EndOfTurn && old(flag)@),
        inv matches Some(i) ==> {
            &&& i.command@ == "check"@
            &&& i.args.deep_view() == Seq::<Seq<char>>::empty()
            &&& i.cwd.deep_view() == workdir@
            &&& !i.skip_json_format
        },
{
    if !matches!(stop, StopReason::EndOfTurn) {
        return None;
    }
    if flag.take_and_clear() {
        Some(BuildInvocation::check(workdir.get()))
    } else {
        None
    }
}

} // verus!
