//! The command model: what one build-tool invocation looks like, how its
//! human-readable command line is rendered, and how the tool's captured
//! output is assembled into a result.

use crate::diagnostics::{spec_filter_records, filter_json_messages, DiagnosticRecord};
use crate::stderr_filter::{spec_filter_stderr, filter_stderr};
use crate::text::{join_strings, join_with};
use vstd::prelude::*;
use vstd::string::StringExecFns;

verus! {

/// One request to run the build tool: a subcommand, its arguments, an
/// optional working directory, and whether the structured-output flag is
/// suppressed. Immutable once constructed.
pub struct BuildInvocation {
    pub command: String,
    pub args: Vec<String>,
    pub cwd: Option<String>,
    pub skip_json_format: bool,
}

/// The rendered command line: the tool name, the subcommand, the arguments
/// joined by single spaces, and the structured-output flag when it is used.
pub open spec fn rendered_command_spec(command: Seq<char>, args: Seq<Seq<char>>, skip: bool) -> Seq<
    char,
> {
    "cargo "@ + command + " "@ + join_with(args, " "@) + if skip {
        Seq::<char>::empty()
    } else {
        " --message-format json"@
    }
}

/// The argument list actually handed to the tool: the invocation's own
/// arguments, followed by the structured-output flag unless suppressed.
pub open spec fn full_args_spec(args: Seq<Seq<char>>, skip: bool) -> Seq<Seq<char>> {
    if skip {
        args
    } else {
        args + seq!["--message-format"@, "json"@]
    }
}

impl BuildInvocation {
    /// The invocation the verification trigger runs: the check subcommand,
    /// no extra arguments, structured output enabled.
    pub fn check(cwd: Option<String>) -> (inv: BuildInvocation)
        ensures
            inv.command@ == "check"@,
            inv.args.deep_view() == Seq::<Seq<char>>::empty(),
            inv.cwd == cwd,
            !inv.skip_json_format,
    {
        let inv = BuildInvocation {
            command: String::from_str("check"),
            args: Vec::new(),
            cwd,
            skip_json_format: false,
        };
        proof {
            assert(inv.args.deep_view() =~= Seq::<Seq<char>>::empty());
        }
        inv
    }

    /// A full-build invocation, structured output enabled.
    pub fn build(cwd: Option<String>) -> (inv: BuildInvocation)
        ensures
            inv.command@ == "build"@,
            inv.args.deep_view() == Seq::<Seq<char>>::empty(),
            inv.cwd == cwd,
            !inv.skip_json_format,
    {
        let inv = BuildInvocation {
            command: String::from_str("build"),
            args: Vec::new(),
            cwd,
            skip_json_format: false,
        };
        proof {
            assert(inv.args.deep_view() =~= Seq::<Seq<char>>::empty());
        }
        inv
    }

    /// A test invocation, with the optional test name or pattern as its one
    /// argument, structured output enabled.
    pub fn test(cwd: Option<String>, test_arg: Option<String>) -> (inv: BuildInvocation)
        ensures
            inv.command@ == "test"@,
            inv.args.deep_view() == match test_arg {
                Some(t) => seq![t@],
                None => Seq::<Seq<char>>::empty(),
            },
            inv.cwd == cwd,
            !inv.skip_json_format,
    {
        let mut args: Vec<String> = Vec::new();
        proof {
            assert(args.deep_view() =~= Seq::<Seq<char>>::empty());
        }
        match test_arg {
            Some(t) => {
                let ghost tv = t@;
                args.push(t);
                proof {
                    assert(args.deep_view() =~= seq![tv]);
                }
            },
            None => {},
        }
        BuildInvocation { command: String::from_str("test"), args, cwd, skip_json_format: false }
    }

    /// Render the invocation for human-readable echoing.
    pub fn rendered_command(&self) -> (out: String)
        ensures
            out@ == rendered_command_spec(self.command@, self.args.deep_view(), self.skip_json_format),
    {
        let mut out = String::from_str("cargo ");
        out.append(self.command.as_str());
        out.append(" ");
        let joined = join_strings(&self.args, " ");
        out.append(joined.as_str());
        if !self.skip_json_format {
            out.append(" --message-format json");
        }
        out
    }

    /// The argument list to hand to the tool, the structured-output flag
    /// appended unless suppressed.
    pub fn full_args(&self) -> (v: Vec<String>)
        ensures
            v.deep_view() == full_args_spec(self.args.deep_view(), self.skip_json_format),
    {
        let mut v: Vec<String> = Vec::new();
        let mut i: usize = 0;
        proof {
            assert(v.deep_view() =~= self.args.deep_view().take(0));
        }
        while i < self.args.len()
            invariant
                0 <= i <= self.args.len(),
                self.args.deep_view().len() == self.args.len(),
                v.deep_view() == self.args.deep_view().take(i as int),
            decreases self.args.len() - i,
        {
            let ghost prev = v.deep_view();
            v.push(self.args[i].clone());
            proof {
                assert(v.deep_view() =~= prev.push(self.args.deep_view()[i as int]));
                assert(v.deep_view() =~= self.args.deep_view().take(i + 1));
            }
            i = i + 1;
        }
        proof {
            assert(self.args.deep_view().take(self.args.len() as int) =~= self.args.deep_view());
        }
        if !self.skip_json_format {
            let ghost prev = v.deep_view();
            v.push(String::from_str("--message-format"));
            proof {
                assert(v.deep_view() =~= prev.push("--message-format"@));
            }
            let ghost prev2 = v.deep_view();
            v.push(String::from_str("json"));
            proof {
                assert(v.deep_view() =~= prev2.push("json"@));
                assert(v.deep_view() =~= self.args.deep_view() + seq![
                    "--message-format"@,
                    "json"@,
                ]);
            }
        }
        v
    }
}

/// The outcome of one build-tool invocation: overall success, the exit code
/// if the process exited normally, the kept diagnostic records, the filtered
/// stderr text, and the rendered command line. A failing build is a normal
/// value of this type, not an error.
pub struct CargoCommandJsonResult {
    pub success: bool,
    pub exit_code: Option<i32>,
    pub messages: Vec<DiagnosticRecord>,
    pub stderr: String,
    pub command: String,
}

/// Assemble the result of an invocation from the exit code and the captured
/// output: stdout is filtered down to diagnostic records, stderr is cleared
/// of lock-wait noise, and success means the process exited with code zero.
pub fn assemble_result(inv: &BuildInvocation, exit_code: Option<i32>, stdout: &str, stderr: &str) -> (r:
    CargoCommandJsonResult)
    ensures
        r.exit_code == exit_code,
        r.success == (exit_code == Some(0i32)),
        r.messages.deep_view() == spec_filter_records(stdout@),
        r.stderr@ == spec_filter_stderr(stderr@),
        r.command@ == rendered_command_spec(
            inv.command@,
            inv.args.deep_view(),
            inv.skip_json_format,
        ),
{
    let success = match exit_code {
        Some(c) => c == 0,
        None => false,
    };
    CargoCommandJsonResult {
        success,
        exit_code,
        messages: filter_json_messages(stdout),
        stderr: filter_stderr(stderr),
        command: inv.rendered_command(),
    }
}

/// Whether the automatic check loop must report this result back to the
/// agent: exactly when the exit code is not zero (a missing code counts as
/// a failure to report).
pub fn should_report(r: &CargoCommandJsonResult) -> (b: bool)
    ensures
        b == (r.exit_code != Some(0i32)),
{
    match r.exit_code {
        Some(c) => c != 0,
        None => true,
    }
}

} // verus!
