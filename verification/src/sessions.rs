//! The terminal-session registry: enumerating and terminating multiplexer
//! sessions that belong to this tool.
//!
//! Every session this tool creates carries a fixed namespace prefix in its
//! name. Sessions without the prefix are invisible: they are neither listed
//! nor killed, whatever else runs on the host.

use vstd::prelude::*;
use crate::bytes::{
    spec_split, spec_lines, spec_trim, spec_parse_i64, spec_parse_u32, spec_starts_with,
    spec_contains, split_bytes, split_lines, trim_ascii, parse_i64, parse_u32, starts_with,
    contains_bytes,
};
use crate::text::{lossy_of, lossy_string, chars_of_ascii, ascii_bytes};
use vstd::string::StringSliceAdditionalSpecFns;
use crate::run::{CmdSpec, CmdModel, Program, ProgramModel, RunOutcome, OutcomeModel, arg, prefixed};

verus! {

/// The namespace prefix, as bytes of the session name.
pub open spec fn session_prefix() -> Seq<u8> {
    "divergence-".spec_bytes()
}

/// One multiplexer session owned by this tool.
#[derive(Debug)]
pub struct TmuxSessionInfo {
    pub name: String,
    pub created: String,
    pub attached: bool,
    pub window_count: u32,
    pub activity: String,
}

/// Spec-level image of a [`TmuxSessionInfo`].
pub struct SessionModel {
    pub name: Seq<char>,
    pub created: Seq<char>,
    pub attached: bool,
    pub window_count: u32,
    pub activity: Seq<char>,
}

impl View for TmuxSessionInfo {
    type V = SessionModel;

    open spec fn view(&self) -> SessionModel {
        SessionModel {
            name: self.name@,
            created: self.created@,
            attached: self.attached,
            window_count: self.window_count,
            activity: self.activity@,
        }
    }
}

impl DeepView for TmuxSessionInfo {
    type V = SessionModel;

    open spec fn deep_view(&self) -> SessionModel {
        self.view()
    }
}

/// What the tool-native epoch string becomes: the timestamp in standard
/// form, or empty when unparseable or out of range.
pub uninterp spec fn rfc3339_or_empty(secs: i64) -> Seq<char>;

/// Relies on chrono's `DateTime::<Utc>::from_timestamp` and
/// `DateTime::to_rfc3339`: both pure functions of the seconds value;
/// out-of-range seconds yield `None`, reported here as the empty string.
#[verifier::external_body]
fn format_epoch(secs: i64) -> (r: String)
    ensures
        r@ == rfc3339_or_empty(secs),
{
    chrono::DateTime::<chrono::Utc>::from_timestamp(secs, 0).map(
        |dt| dt.to_rfc3339(),
    ).unwrap_or_default()
}

/// The timestamp string an epoch field denotes: trimmed, parsed as signed
/// seconds, rendered in standard form; empty on any failure.
pub open spec fn spec_epoch_iso(b: Seq<u8>) -> Seq<char> {
    match spec_parse_i64(spec_trim(b)) {
        Some(secs) => rfc3339_or_empty(secs),
        None => Seq::<char>::empty(),
    }
}

/// Converts a tool-native epoch-seconds field to a standard timestamp
/// string, empty when unparseable.
pub fn epoch_to_iso8601(epoch: &[u8]) -> (r: String)
    ensures
        r@ == spec_epoch_iso(epoch@),
{
    let t = trim_ascii(epoch);
    match parse_i64(t.as_slice()) {
        Some(secs) => format_epoch(secs),
        None => String::new(),
    }
}

/// The sessions one listing line denotes: tab-separated name, creation
/// epoch, attached flag, window count, activity epoch; short lines and
/// foreign names yield nothing.
pub open spec fn spec_session_of_line(l: Seq<u8>) -> Seq<SessionModel> {
    let fs = spec_split(l, 0x09);
    if fs.len() < 5 {
        Seq::empty()
    } else if !spec_starts_with(fs[0], session_prefix()) {
        Seq::empty()
    } else {
        seq![
            SessionModel {
                name: lossy_of(fs[0]),
                created: spec_epoch_iso(fs[1]),
                attached: fs[2] != seq![0x30u8],
                window_count: match spec_parse_u32(spec_trim(fs[3])) {
                    Some(v) => v,
                    None => 0,
                },
                activity: spec_epoch_iso(fs[4]),
            },
        ]
    }
}

/// The sessions a listing stream denotes.
pub open spec fn spec_parse_sessions(stdout: Seq<u8>) -> Seq<SessionModel>
    decreases stdout.len(),
{
    spec_sessions_of_lines(spec_lines(stdout))
}

pub open spec fn spec_sessions_of_lines(lines: Seq<Seq<u8>>) -> Seq<SessionModel>
    decreases lines.len(),
{
    if lines.len() == 0 {
        Seq::empty()
    } else {
        spec_session_of_line(lines[0]) + spec_sessions_of_lines(lines.skip(1))
    }
}

/// The namespace prefix is plain ASCII, so it survives the lossy decoding
/// of a session name unchanged.
pub proof fn lemma_prefix_ascii()
    ensures
        ascii_bytes(session_prefix()),
        chars_of_ascii(session_prefix()) == "divergence-"@,
        session_prefix().len() == 11,
{
    reveal_strlit("divergence-");
    assert(vstd::utf8::is_ascii_chars("divergence-"@)) by {
        assert(forall|i: int|
            0 <= i < "divergence-"@.len() ==> '\0' <= #[trigger] "divergence-"@[i] <= '\u{7f}');
    }
    vstd::utf8::is_ascii_chars_encode_utf8("divergence-"@);
    assert(chars_of_ascii(session_prefix()) =~= "divergence-"@);
}

/// True when a session name starts with the tool's namespace prefix.
pub open spec fn name_prefixed(name: Seq<char>) -> bool {
    name.len() >= 11 && name.take(11) == "divergence-"@
}

/// Parses the listing stream into the tool's own sessions. Every record
/// returned bears the namespace prefix in its name: sessions the tool does
/// not own never appear, whatever else runs on the host.
pub fn parse_sessions(stdout: &[u8]) -> (r: Vec<TmuxSessionInfo>)
    ensures
        r.deep_view() == spec_parse_sessions(stdout@),
        forall|k: int| 0 <= k < r.len() ==> name_prefixed(#[trigger] r.deep_view()[k].name),
{
    let lines = split_lines(stdout);
    let ghost linesv = lines.deep_view();
    let mut out: Vec<TmuxSessionInfo> = Vec::new();
    let mut i: usize = 0;
    proof {
        assert(linesv.skip(0) =~= linesv);
        assert(out.deep_view() =~~= Seq::<SessionModel>::empty());
    }
    while i < lines.len()
        invariant
            i <= lines.len(),
            linesv == lines.deep_view(),
            spec_sessions_of_lines(linesv) =~~= out.deep_view() + spec_sessions_of_lines(
                linesv.skip(i as int),
            ),
            forall|k: int| 0 <= k < out.len() ==> name_prefixed(#[trigger] out.deep_view()[k].name),
        decreases lines.len() - i,
    {
        proof {
            assert(linesv.skip(i as int).skip(1) =~= linesv.skip(i + 1));
            assert(linesv.skip(i as int)[0] == linesv[i as int]);
        }
        let l = &lines[i];
        let ghost lv = linesv[i as int];
        assert(l@ == lv);
        let fs = split_bytes(l.as_slice(), 0x09);
        proof {
            assert(fs.deep_view()[0] =~= fs@[0]@);
        }
        if fs.len() >= 5 {
            if starts_with(fs[0].as_slice(), "divergence-".as_bytes()) {
                proof {
                    assert(fs.deep_view()[0] =~= fs@[0]@);
                    assert(fs.deep_view()[1] =~= fs@[1]@);
                    assert(fs.deep_view()[2] =~= fs@[2]@);
                    assert(fs.deep_view()[3] =~= fs@[3]@);
                    assert(fs.deep_view()[4] =~= fs@[4]@);
                }
                let name = lossy_string(fs[0].as_slice());
                proof {
                    lemma_prefix_ascii();
                    assert(fs@[0]@.take(session_prefix().len() as int) =~= session_prefix());
                    assert(ascii_bytes(fs@[0]@.take(11)));
                    assert(name@.take(11) == chars_of_ascii(fs@[0]@.take(11)) && name@.len()
                        >= 11);
                    assert(name_prefixed(name@));
                }
                let created = epoch_to_iso8601(fs[1].as_slice());
                let attached = !(fs[2].len() == 1 && fs[2][0] == 0x30);
                let wtrim = trim_ascii(fs[3].as_slice());
                let window_count = match parse_u32(wtrim.as_slice()) {
                    Some(v) => v,
                    None => 0,
                };
                let activity = epoch_to_iso8601(fs[4].as_slice());
                let rec = TmuxSessionInfo { name, created, attached, window_count, activity };
                let ghost out0 = out.deep_view();
                proof {
                    assert(fs@[2]@ == seq![0x30u8] <==> (fs@[2]@.len() == 1 && fs@[2]@[0]
                        == 0x30)) by {
                        if fs@[2]@.len() == 1 && fs@[2]@[0] == 0x30 {
                            assert(fs@[2]@ =~= seq![0x30u8]);
                        }
                    }
                }
                out.push(rec);
                proof {
                    assert(out.deep_view() =~~= out0 + spec_session_of_line(lv));
                    assert(forall|k: int|
                        0 <= k < out.len() - 1 ==> out.deep_view()[k] == out0[k]);
                }
            }
        }
        i += 1;
    }
    proof {
        assert(linesv.skip(linesv.len() as int) =~= Seq::<Seq<u8>>::empty());
        assert(out.deep_view() =~~= spec_sessions_of_lines(linesv));
    }
    out
}

/// The listing invocation whose outcome `list_tmux_sessions` interprets.
pub fn list_sessions_cmd() -> (c: CmdSpec)
    ensures
        c@.program == ProgramModel::Tmux,
        c@.cwd is None,
        c@.args =~~= seq![
            "list-sessions"@,
            "-F"@,
            "#{session_name}\t#{session_created}\t#{session_attached}\t#{session_windows}\t#{session_activity}"@,
        ],
{
    let mut args: Vec<String> = Vec::new();
    args.push(arg("list-sessions"));
    args.push(arg("-F"));
    args.push(
        arg("#{session_name}\t#{session_created}\t#{session_attached}\t#{session_windows}\t#{session_activity}"),
    );
    CmdSpec { program: Program::Tmux, args, cwd: None }
}

/// What `list_tmux_sessions` yields for each outcome: a missing tool or an
/// idle server is an empty listing, not an error.
pub open spec fn spec_list_sessions(o: OutcomeModel) -> Result<Seq<SessionModel>, Seq<char>> {
    match o {
        OutcomeModel::NotFound { .. } => Ok(Seq::empty()),
        OutcomeModel::Failed { message } => Err("Failed to execute tmux: "@ + message),
        OutcomeModel::Exited { success, stdout, stderr, .. } => if success {
            Ok(spec_parse_sessions(stdout))
        } else if spec_contains(stderr, "no server running".spec_bytes()) || spec_contains(
            stderr,
            "failed to connect to server".spec_bytes(),
        ) {
            Ok(Seq::empty())
        } else {
            Err("Failed to list tmux sessions: "@ + lossy_of(stderr))
        },
    }
}

/// Interprets the outcome of the listing invocation. A listing that
/// succeeds never names a session lacking the namespace prefix.
pub fn list_tmux_sessions(outcome: &RunOutcome) -> (r: Result<Vec<TmuxSessionInfo>, String>)
    ensures
        match r {
            Ok(sessions) => spec_list_sessions(outcome@) == Ok::<Seq<SessionModel>, Seq<char>>(
                sessions.deep_view(),
            ) && forall|k: int|
                0 <= k < sessions.len() ==> name_prefixed(
                    #[trigger] sessions.deep_view()[k].name,
                ),
            Err(e) => spec_list_sessions(outcome@) == Err::<Seq<SessionModel>, Seq<char>>(e@),
        },
{
    match outcome {
        RunOutcome::NotFound { .. } => {
            let r: Vec<TmuxSessionInfo> = Vec::new();
            proof {
                assert(r.deep_view() =~~= Seq::<SessionModel>::empty());
            }
            Ok(r)
        },
        RunOutcome::Failed { message } => Err(
            prefixed("Failed to execute tmux: ", message.as_str()),
        ),
        RunOutcome::Exited { success, stdout, stderr, .. } => {
            if *success {
                Ok(parse_sessions(stdout.as_slice()))
            } else if contains_bytes(stderr.as_slice(), "no server running".as_bytes())
                || contains_bytes(stderr.as_slice(), "failed to connect to server".as_bytes()) {
                let r: Vec<TmuxSessionInfo> = Vec::new();
                proof {
                    assert(r.deep_view() =~~= Seq::<SessionModel>::empty());
                }
                Ok(r)
            } else {
                let tail = lossy_string(stderr.as_slice());
                Err(prefixed("Failed to list tmux sessions: ", tail.as_str()))
            }
        },
    }
}

/// The kill invocation for a session of ours, or nothing when the name
/// lacks the namespace prefix: foreign sessions are left alone.
pub fn kill_tmux_session(session_name: &str) -> (r: Option<CmdSpec>)
    ensures
        r is Some <==> spec_starts_with(session_name.spec_bytes(), session_prefix()),
        r matches Some(c) ==> c@.program == ProgramModel::Tmux && c@.cwd is None && c@.args
            =~~= seq!["kill-session"@, "-t"@, session_name@],
{
    if starts_with(session_name.as_bytes(), "divergence-".as_bytes()) {
        let mut args: Vec<String> = Vec::new();
        args.push(arg("kill-session"));
        args.push(arg("-t"));
        args.push(session_name.to_owned());
        Some(CmdSpec { program: Program::Tmux, args, cwd: None })
    } else {
        None
    }
}

/// What killing a session yields for each outcome: a missing tool, a dead
/// server and an unknown session all count as success, so killing is
/// idempotent.
pub open spec fn spec_kill_outcome(o: OutcomeModel) -> Result<(), Seq<char>> {
    match o {
        OutcomeModel::NotFound { .. } => Ok(()),
        OutcomeModel::Failed { message } => Err("Failed to execute tmux: "@ + message),
        OutcomeModel::Exited { success, stderr, .. } => if success {
            Ok(())
        } else if spec_contains(stderr, "can't find session".spec_bytes()) || spec_contains(
            stderr,
            "no server running".spec_bytes(),
        ) || spec_contains(stderr, "failed to connect to server".spec_bytes()) {
            Ok(())
        } else {
            Err("Failed to kill tmux session: "@ + lossy_of(stderr))
        },
    }
}

/// Interprets the outcome of the kill invocation.
pub fn kill_session_outcome(outcome: &RunOutcome) -> (r: Result<(), String>)
    ensures
        match r {
            Ok(_) => spec_kill_outcome(outcome@) == Ok::<(), Seq<char>>(()),
            Err(e) => spec_kill_outcome(outcome@) == Err::<(), Seq<char>>(e@),
        },
{
    match outcome {
        RunOutcome::NotFound { .. } => Ok(()),
        RunOutcome::Failed { message } => Err(
            prefixed("Failed to execute tmux: ", message.as_str()),
        ),
        RunOutcome::Exited { success, stderr, .. } => {
            if *success {
                Ok(())
            } else if contains_bytes(stderr.as_slice(), "can't find session".as_bytes())
                || contains_bytes(stderr.as_slice(), "no server running".as_bytes())
                || contains_bytes(stderr.as_slice(), "failed to connect to server".as_bytes()) {
                Ok(())
            } else {
                let tail = lossy_string(stderr.as_slice());
                Err(prefixed("Failed to kill tmux session: ", tail.as_str()))
            }
        },
    }
}

/// Killing is idempotent: a missing tool, a dead server and an unknown
/// session all count as success.
pub proof fn lemma_kill_idempotent(o: OutcomeModel)
    ensures
        (o matches OutcomeModel::NotFound { .. }) ==> spec_kill_outcome(o) == Ok::<(), Seq<char>>(
            (),
        ),
        (o matches OutcomeModel::Exited { success: false, stderr, .. } && (spec_contains(
            stderr,
            "can't find session".spec_bytes(),
        ) || spec_contains(stderr, "no server running".spec_bytes()))) ==> spec_kill_outcome(o)
            == Ok::<(), Seq<char>>(()),
{
}


/// Progress through a kill-everything request: the next name to handle
/// and how many kills have completed.
pub struct KillAllState {
    pub next: usize,
    pub killed: u32,
}

/// What the batch kill asks for next: run one kill invocation, or stop
/// with the count, or with the first error.
pub enum KillAllStep {
    Kill(CmdSpec, KillAllState),
    Done(Result<u32, String>),
}

/// Spec-level image of a [`KillAllStep`].
#[verifier::ext_equal]
pub enum KillAllStepModel {
    Kill(CmdModel, int, int),
    Done(Result<int, Seq<char>>),
}

impl View for KillAllStep {
    type V = KillAllStepModel;

    open spec fn view(&self) -> KillAllStepModel {
        match self {
            KillAllStep::Kill(c, s) => KillAllStepModel::Kill(c@, s.next as int, s.killed as int),
            KillAllStep::Done(r) => KillAllStepModel::Done(
                match r {
                    Ok(n) => Ok(*n as int),
                    Err(e) => Err(e@),
                },
            ),
        }
    }
}

/// The kill invocation for one named session.
pub open spec fn kill_model(name: Seq<char>) -> CmdModel {
    CmdModel {
        program: ProgramModel::Tmux,
        args: seq!["kill-session"@, "-t"@, name],
        cwd: None,
    }
}

/// Where a batch kill stands after `killed` completed kills with the
/// names before `i` handled: names without the namespace prefix count as
/// killed without an invocation, the next prefixed name gets one, and
/// past the last name the count is the answer.
pub open spec fn spec_kill_all(names: Seq<Seq<char>>, i: int, killed: int) -> KillAllStepModel
    decreases names.len() - i,
    when 0 <= i <= names.len()
{
    if i >= names.len() {
        KillAllStepModel::Done(Ok(killed))
    } else if !spec_starts_with(vstd::utf8::encode_utf8(names[i]), session_prefix()) {
        spec_kill_all(names, i + 1, killed + 1)
    } else {
        KillAllStepModel::Kill(kill_model(names[i]), i + 1, killed)
    }
}

/// Starts killing a batch of sessions by name.
pub fn kill_all_tmux_sessions(names: &Vec<String>) -> (r: KillAllStep)
    requires
        names.len() <= 0xffffffff,
    ensures
        r@ =~~= spec_kill_all(names.deep_view(), 0, 0),
{
    kill_all_advance(names, 0, 0)
}

/// Feeds one kill outcome back: the first failure stops the batch with
/// its error, a success counts and moves on.
pub fn kill_all_step(names: &Vec<String>, state: KillAllState, outcome: &RunOutcome) -> (r:
    KillAllStep)
    requires
        state.next <= names.len(),
        names.len() < 0xffffffff,
        state.killed <= state.next,
    ensures
        match spec_kill_outcome(outcome@) {
            Ok(_) => r@ =~~= spec_kill_all(
                names.deep_view(),
                state.next as int,
                state.killed + 1,
            ),
            Err(e) => r@ =~~= KillAllStepModel::Done(Err::<int, Seq<char>>(e)),
        },
{
    match kill_session_outcome(outcome) {
        Ok(_) => kill_all_advance(names, state.next, state.killed + 1),
        Err(e) => KillAllStep::Done(Err(e)),
    }
}

fn kill_all_advance(names: &Vec<String>, start: usize, killed: u32) -> (r: KillAllStep)
    requires
        start <= names.len(),
        killed as int + names@.len() - start as int <= 0xffffffff,
    ensures
        r@ =~~= spec_kill_all(names.deep_view(), start as int, killed as int),
{
    let ghost namesv = names.deep_view();
    let mut i: usize = start;
    let mut count: u32 = killed;
    while i < names.len()
        invariant
            start <= i <= names.len(),
            namesv == names.deep_view(),
            killed as int + names@.len() - start as int <= 0xffffffff,
            count as int <= killed as int + i - start,
            spec_kill_all(namesv, start as int, killed as int) =~~= spec_kill_all(namesv, i as int, count as int),
        decreases names.len() - i,
    {
        proof {
            assert(namesv[i as int] == names@[i as int]@);
        }
        match kill_tmux_session(names[i].as_str()) {
            Some(cmd) => {
                let r = KillAllStep::Kill(cmd, KillAllState { next: i + 1, killed: count });
                proof {
                    assert(cmd@ =~~= kill_model(namesv[i as int]));
                    assert(r@ =~~= spec_kill_all(namesv, i as int, count as int));
                }
                return r;
            },
            None => {
                count = count + 1;
                i = i + 1;
            },
        }
    }
    KillAllStep::Done(Ok(count))
}

} // verus!
