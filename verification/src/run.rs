//! The boundary between the library and the processes it drives.
//!
//! The library never spawns a process itself. A multi-step operation is a
//! state machine: the library hands the caller a [`CmdSpec`] describing the
//! next invocation, the caller runs it and feeds the [`RunOutcome`] back in.

use vstd::prelude::*;

verus! {

/// Which executable an invocation targets. The caller resolves `Git` and
/// `Tmux` to concrete paths; `Path` names the executable directly.
pub enum Program {
    Git,
    Tmux,
    Path(String),
}

/// One subprocess invocation: program, arguments, and an optional working
/// directory.
pub struct CmdSpec {
    pub program: Program,
    pub args: Vec<String>,
    pub cwd: Option<String>,
}

/// Spec-level image of a [`Program`].
pub enum ProgramModel {
    Git,
    Tmux,
    Path(Seq<char>),
}

/// Spec-level image of a [`CmdSpec`].
#[verifier::ext_equal]
pub struct CmdModel {
    pub program: ProgramModel,
    pub args: Seq<Seq<char>>,
    pub cwd: Option<Seq<char>>,
}

impl View for Program {
    type V = ProgramModel;

    open spec fn view(&self) -> ProgramModel {
        match self {
            Program::Git => ProgramModel::Git,
            Program::Tmux => ProgramModel::Tmux,
            Program::Path(p) => ProgramModel::Path(p@),
        }
    }
}

impl View for CmdSpec {
    type V = CmdModel;

    open spec fn view(&self) -> CmdModel {
        CmdModel {
            program: self.program@,
            args: self.args.deep_view(),
            cwd: match self.cwd {
                Some(ref c) => Some(c@),
                None => None,
            },
        }
    }
}

/// What became of one invocation. `NotFound` is the caller's report that the
/// executable does not exist; `Failed` any other spawn error; `Exited` a
/// process that ran to completion (successfully or not).
pub enum RunOutcome {
    NotFound { message: String },
    Failed { message: String },
    Exited { success: bool, code: Option<i32>, stdout: Vec<u8>, stderr: Vec<u8> },
}

/// Spec-level image of a [`RunOutcome`].
pub enum OutcomeModel {
    NotFound { message: Seq<char> },
    Failed { message: Seq<char> },
    Exited { success: bool, code: Option<i32>, stdout: Seq<u8>, stderr: Seq<u8> },
}

impl View for RunOutcome {
    type V = OutcomeModel;

    open spec fn view(&self) -> OutcomeModel {
        match self {
            RunOutcome::NotFound { message } => OutcomeModel::NotFound { message: message@ },
            RunOutcome::Failed { message } => OutcomeModel::Failed { message: message@ },
            RunOutcome::Exited { success, code, stdout, stderr } => OutcomeModel::Exited {
                success: *success,
                code: *code,
                stdout: stdout@,
                stderr: stderr@,
            },
        }
    }
}

/// An owned copy of a borrowed string, for building argument lists.
pub fn arg(s: &str) -> (r: String)
    ensures
        r@ == s@,
{
    s.to_owned()
}

/// `prefix` followed by `tail`, the shape of every error message the
/// library reports.
pub fn prefixed(prefix: &str, tail: &str) -> (r: String)
    ensures
        r@ == prefix@ + tail@,
{
    let mut m = prefix.to_owned();
    m.append(tail);
    m
}

/// A git invocation running in `cwd`.
pub fn git_in(cwd: &str, args: Vec<String>) -> (c: CmdSpec)
    ensures
        c@.program == ProgramModel::Git,
        c@.args == args.deep_view(),
        c@.cwd == Some(cwd@),
{
    CmdSpec { program: Program::Git, args, cwd: Some(arg(cwd)) }
}

/// A git invocation with no particular working directory.
pub fn git_anywhere(args: Vec<String>) -> (c: CmdSpec)
    ensures
        c@.program == ProgramModel::Git,
        c@.args == args.deep_view(),
        c@.cwd is None,
{
    CmdSpec { program: Program::Git, args, cwd: None }
}

} // verus!
