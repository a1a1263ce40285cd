use vstd::prelude::*;

use crate::events::{evs, Ev, LogEvent};
use crate::grouping::{stream_events, LineGrouper};
use crate::pattern::{valid_group_pattern, GroupPattern};
use crate::text::{is_substring, join_spaces, views_of};

verus! {

/// What a runner reports of one finished operation: every operation ends in
/// exactly one of these, with the caller-supplied message on failure.
#[derive(Debug, PartialEq, Eq)]
pub enum ExecutionResult {
    Success,
    Failure(String),
}

/// An error that ends an operation before or beside the exit-code contract:
/// the child could not be launched at all, or a grouping pattern was refused
/// before anything was spawned.
#[derive(Debug, PartialEq, Eq)]
pub enum RunError {
    Spawn(String),
    InvalidPattern,
}

/// How a child process ended: its exit code, or none when it was terminated
/// by a signal. An exit code of zero is success.
#[derive(Clone, Copy, Debug)]
pub struct ExitStatus {
    pub code: Option<i32>,
}

impl ExitStatus {
    /// An exit status counts as success exactly when the code is zero.
    pub open spec fn is_success(&self) -> bool {
        self.code == Some(0i32)
    }
}

/// What the operating system reported for one attempted child process whose
/// streams were left alone.
#[derive(Debug)]
pub enum SpawnOutcome {
    SpawnFailed(String),
    Exited(ExitStatus),
}

/// What the operating system reported for one attempted child process whose
/// error stream was read line by line until it ended.
#[derive(Debug)]
pub enum StreamedOutcome {
    SpawnFailed(String),
    Streamed { stderr_lines: Vec<String>, status: ExitStatus },
}

/// What the operating system reported for one attempted child process whose
/// output was captured in full.
#[derive(Debug)]
pub enum CapturedOutcome {
    SpawnFailed(String),
    Captured { status: ExitStatus, stderr: String },
}

/// How waiting on a spawned child ended: the wait call itself failed at the
/// operating-system level, or the child exited with a status.
#[derive(Debug)]
pub enum WaitOutcome {
    WaitFailed,
    Exited(ExitStatus),
}

/// What happened to one supervised command, from spawn to wait: the child
/// could not be launched, the wait on it failed, or it exited.
#[derive(Debug)]
pub enum CommandOutcome {
    SpawnFailed(String),
    WaitFailed,
    Exited(ExitStatus),
}

/// The supervisor's verdict on a finished child: carry on, or terminate the
/// whole program with the given exit code.
#[derive(Debug, PartialEq, Eq)]
pub enum SupervisedOutcome {
    Completed,
    FatalExit(i32),
}

/// What one runner invocation asks of its caller: the log lines to emit, in
/// order, and the result of the operation.
#[derive(Debug)]
pub struct RunReport {
    pub log: Vec<LogEvent>,
    pub result: Result<ExecutionResult, RunError>,
}

/// The program name and its space-joined arguments.
pub open spec fn plain_command_line(name: Seq<char>, args: Seq<Seq<char>>) -> Seq<char> {
    name + seq![' '] + join_spaces(args)
}

/// The informational line logged before a command runs: the program name and
/// its space-joined arguments.
pub open spec fn command_info_line(name: Seq<char>, args: Seq<Seq<char>>) -> Seq<char> {
    "Command line: "@ + plain_command_line(name, args)
}

/// Maps an exit status to the runner result: success on exit code zero,
/// otherwise the caller-supplied message, verbatim.
pub fn status_to_result(status: &ExitStatus, error_msg: &str) -> (r: ExecutionResult)
    ensures
        status.is_success() ==> r is Success,
        !status.is_success() ==> (r matches ExecutionResult::Failure(m) && m@ == error_msg@),
{
    match status.code {
        Some(0i32) => ExecutionResult::Success,
        _ => ExecutionResult::Failure(error_msg.to_owned()),
    }
}

/// The supervisor: a child that exited with code zero lets the program carry
/// on; any other ending terminates the whole program with the child's exit
/// code, or with 1 when no code is known — a failed wait included, which is
/// deliberately unrecoverable.
pub fn handle_child_process(wait: &WaitOutcome) -> (r: SupervisedOutcome)
    ensures
        wait is WaitFailed ==> r == SupervisedOutcome::FatalExit(1i32),
        wait matches WaitOutcome::Exited(st) ==> (st.is_success() ==> r is Completed),
        wait matches WaitOutcome::Exited(st) ==> (st.code matches Some(c) ==> (c != 0 ==> r
            == SupervisedOutcome::FatalExit(c))),
        wait matches WaitOutcome::Exited(st) ==> (st.code is None ==> r
            == SupervisedOutcome::FatalExit(1i32)),
{
    match wait {
        WaitOutcome::WaitFailed => SupervisedOutcome::FatalExit(1i32),
        WaitOutcome::Exited(st) => match st.code {
            Some(0i32) => SupervisedOutcome::Completed,
            Some(c) => SupervisedOutcome::FatalExit(c),
            None => SupervisedOutcome::FatalExit(1i32),
        },
    }
}

/// The informational line logged before a command runs, built on its own so
/// that a caller can emit it before anything is spawned.
pub fn command_info(name: &str, args: &Vec<String>) -> (r: LogEvent)
    ensures
        r@ == Ev::Info(command_info_line(name@, views_of(args@))),
{
    let mut line = String::from_str("Command line: ");
    line.append(name);
    line.append(" ");
    line.append(crate::text::join_with_spaces(args).as_str());
    proof {
        reveal_strlit(" ");
        assert(" "@ =~= seq![' ']);
        assert(line@ =~= command_info_line(name@, views_of(args@)));
    }
    LogEvent::Info(line)
}

/// The bare command line of a supervised run, built on its own so that a
/// caller can emit it before anything is spawned.
pub fn command_notice(command: &str, args: &Vec<String>) -> (r: LogEvent)
    ensures
        r@ == Ev::Info(plain_command_line(command@, views_of(args@))),
{
    let mut line = String::from_str("");
    line.append(command);
    line.append(" ");
    line.append(crate::text::join_with_spaces(args).as_str());
    proof {
        reveal_strlit(" ");
        reveal_strlit("");
        assert(" "@ =~= seq![' ']);
        assert(""@ =~= Seq::<char>::empty());
        assert(line@ =~= plain_command_line(command@, views_of(args@)));
    }
    LogEvent::Info(line)
}

/// The result of a plain run, decided by the spawn outcome alone: a child
/// that could not be launched is a spawn error; otherwise the exit code
/// decides, with the caller-supplied message on a non-zero exit.
pub fn process_result(error_msg: &str, outcome: &SpawnOutcome) -> (r: Result<
    ExecutionResult,
    RunError,
>)
    ensures
        outcome matches SpawnOutcome::SpawnFailed(e) ==> (r matches Err(RunError::Spawn(m)) && m@
            == e@),
        outcome matches SpawnOutcome::Exited(st) ==> (st.is_success() ==> (r matches Ok(res)
            && res is Success)),
        outcome matches SpawnOutcome::Exited(st) ==> (!st.is_success() ==> (r matches Ok(res)
            && res matches ExecutionResult::Failure(m) && m@ == error_msg@)),
{
    match outcome {
        SpawnOutcome::SpawnFailed(e) => Err(RunError::Spawn(e.clone())),
        SpawnOutcome::Exited(st) => Ok(status_to_result(st, error_msg)),
    }
}

/// Runs one command to completion: unless quiet, one informational line with
/// the program and its space-joined arguments is logged, and it goes out
/// before the spawn; a child that could not be launched is a spawn error;
/// otherwise the exit code decides, with the caller-supplied message on a
/// non-zero exit.
pub fn run_process(
    name: &str,
    args: &Vec<String>,
    error_msg: &str,
    quiet: bool,
    outcome: &SpawnOutcome,
) -> (r: RunReport)
    ensures
        quiet ==> evs(r.log@) == Seq::<Ev>::empty(),
        !quiet ==> evs(r.log@) == seq![Ev::Info(command_info_line(name@, views_of(args@)))],
        outcome matches SpawnOutcome::SpawnFailed(e) ==> (r.result matches Err(RunError::Spawn(m))
            && m@ == e@),
        outcome matches SpawnOutcome::Exited(st) ==> (st.is_success() ==> (r.result matches Ok(res)
            && res is Success)),
        outcome matches SpawnOutcome::Exited(st) ==> (!st.is_success() ==> (r.result matches Ok(
            res,
        ) && res matches ExecutionResult::Failure(m) && m@ == error_msg@)),
{
    let mut log: Vec<LogEvent> = Vec::new();
    if !quiet {
        log.push(command_info(name, args));
        proof {
            assert(evs(log@) =~= seq![Ev::Info(command_info_line(name@, views_of(args@)))]);
        }
    } else {
        proof {
            assert(evs(log@) =~= Seq::<Ev>::empty());
        }
    }
    RunReport { log, result: process_result(error_msg, outcome) }
}

/// The exclusion flag pairs appended for a list of excluded members: the
/// flag `--exclude` followed by the member's name, once per member, in the
/// list's order.
pub open spec fn exclusion_flags(excluded: Seq<Seq<char>>) -> Seq<Seq<char>>
    decreases excluded.len(),
{
    if excluded.len() == 0 {
        Seq::empty()
    } else {
        seq!["--exclude"@, excluded[0]] + exclusion_flags(excluded.skip(1))
    }
}

proof fn lemma_exclusion_flags_push(excluded: Seq<Seq<char>>, x: Seq<char>)
    ensures
        exclusion_flags(excluded.push(x)) == exclusion_flags(excluded) + seq!["--exclude"@, x],
    decreases excluded.len(),
{
    if excluded.len() == 0 {
        assert(excluded.push(x) =~= seq![x]);
        assert(seq![x].skip(1) =~= Seq::<Seq<char>>::empty());
        assert(exclusion_flags(Seq::<Seq<char>>::empty()) =~= Seq::<Seq<char>>::empty());
        assert(seq![x][0] == x);
        assert(exclusion_flags(excluded.push(x)) =~= exclusion_flags(excluded) + seq![
            "--exclude"@,
            x,
        ]);
    } else {
        lemma_exclusion_flags_push(excluded.skip(1), x);
        assert(excluded.push(x).skip(1) =~= excluded.skip(1).push(x));
        assert(excluded.push(x)[0] == excluded[0]);
        assert(exclusion_flags(excluded.push(x)) =~= exclusion_flags(excluded) + seq![
            "--exclude"@,
            x,
        ]);
    }
}

/// Appends the exclusion flag pair `--exclude <name>` for each excluded
/// member, in order, to the base argument list.
pub fn workspace_args(args: Vec<String>, excluded: &Vec<String>) -> (r: Vec<String>)
    ensures
        views_of(r@) == views_of(args@) + exclusion_flags(views_of(excluded@)),
{
    let ghost base = views_of(args@);
    let mut out = args;
    let mut i: usize = 0;
    proof {
        assert(views_of(excluded@).take(0) =~= Seq::<Seq<char>>::empty());
        assert(views_of(out@) =~= base + exclusion_flags(views_of(excluded@).take(0)));
    }
    while i < excluded.len()
        invariant
            i <= excluded@.len(),
            views_of(out@) == base + exclusion_flags(views_of(excluded@).take(i as int)),
        decreases excluded@.len() - i,
    {
        let ghost exs = views_of(excluded@);
        let ghost prev = out@;
        let ghost prev_vs = views_of(out@);
        out.push(String::from_str("--exclude"));
        out.push(excluded[i].clone());
        proof {
            assert(exs[i as int] == excluded@[i as int]@);
            lemma_exclusion_flags_push(exs.take(i as int), exs[i as int]);
            assert(exs.take(i as int).push(exs[i as int]) =~= exs.take(i + 1));
            let new_vs = views_of(out@);
            let target = base + exclusion_flags(exs.take(i + 1));
            assert(exclusion_flags(exs.take(i + 1)) == exclusion_flags(exs.take(i as int)) + seq![
                "--exclude"@,
                exs[i as int],
            ]);
            assert(prev_vs.len() == prev.len());
            assert(new_vs.len() == out@.len());
            assert(target.len() == out@.len());
            assert forall|k: int| 0 <= k < out@.len() implies new_vs[k] == target[k] by {
                assert(new_vs[k] == out@[k]@);
                if k < prev.len() {
                    assert(out@[k] == prev[k]);
                    assert(prev_vs[k] == prev[k]@);
                } else if k == prev.len() {
                    assert(out@[k]@ == "--exclude"@);
                } else {
                    assert(out@[k]@ == exs[i as int]);
                }
            }
            assert(new_vs =~= target);
        }
        i += 1;
    }
    proof {
        assert(views_of(excluded@).take(excluded@.len() as int) =~= views_of(excluded@));
    }
    out
}

/// The text of an optional pattern argument.
pub open spec fn opt_text(o: Option<&str>) -> Option<Seq<char>> {
    match o {
        Some(s) => Some(s@),
        None => None,
    }
}

/// An optional grouping pattern is accepted when it is absent or valid.
pub open spec fn pattern_accepted(o: Option<Seq<char>>) -> bool {
    o matches Some(p) ==> valid_group_pattern(p)
}

/// Runs one command over the whole workspace: the base arguments are
/// extended with an exclusion flag pair per excluded member, the command is
/// logged, and the error stream is read line by line, grouped by the
/// optional pattern and echoed in order; the exit code then decides the
/// result. A pattern that does not compile to exactly one capture group
/// refuses the run before anything is spawned.
pub fn run_process_for_workspace(
    name: &str,
    args: Vec<String>,
    excluded: &Vec<String>,
    error_msg: &str,
    group_regexp: Option<&str>,
    outcome: &StreamedOutcome,
) -> (r: RunReport)
    ensures
        !pattern_accepted(opt_text(group_regexp)) ==> ({
            &&& r.result matches Err(RunError::InvalidPattern)
            &&& r.log@.len() == 0
        }),
        pattern_accepted(opt_text(group_regexp)) ==> (outcome matches
            StreamedOutcome::SpawnFailed(e) ==> ({
            &&& evs(r.log@) == seq![
                Ev::Info(
                    command_info_line(
                        name@,
                        views_of(args@) + exclusion_flags(views_of(excluded@)),
                    ),
                ),
            ]
            &&& r.result matches Err(RunError::Spawn(m)) && m@ == e@
        })),
        pattern_accepted(opt_text(group_regexp)) ==> (outcome matches StreamedOutcome::Streamed {
            stderr_lines,
            status,
        } ==> ({
            &&& evs(r.log@) == seq![
                Ev::Info(
                    command_info_line(
                        name@,
                        views_of(args@) + exclusion_flags(views_of(excluded@)),
                    ),
                ),
            ] + stream_events(opt_text(group_regexp), views_of(stderr_lines@), false)
            &&& status.is_success() ==> (r.result matches Ok(res) && res is Success)
            &&& !status.is_success() ==> (r.result matches Ok(res) && res matches
                ExecutionResult::Failure(m) && m@ == error_msg@)
        })),
{
    let pattern: Option<GroupPattern> = match group_regexp {
        Some(p) => {
            match GroupPattern::new(p) {
                Some(gp) => Some(gp),
                None => {
                    return RunReport { log: Vec::new(), result: Err(RunError::InvalidPattern) };
                },
            }
        },
        None => None,
    };
    let final_args = workspace_args(args, excluded);
    let mut log: Vec<LogEvent> = Vec::new();
    log.push(command_info(name, &final_args));
    let ghost fargs = views_of(args@) + exclusion_flags(views_of(excluded@));
    proof {
        assert(evs(log@) =~= seq![Ev::Info(command_info_line(name@, fargs))]);
    }
    match outcome {
        StreamedOutcome::SpawnFailed(e) => RunReport {
            log,
            result: Err(RunError::Spawn(e.clone())),
        },
        StreamedOutcome::Streamed { stderr_lines, status } => {
            let ghost head = log@;
            let mut grouper = LineGrouper::new(pattern);
            let mut events = grouper.process_stream(stderr_lines);
            let ghost tail = events@;
            log.append(&mut events);
            proof {
                crate::events::lemma_evs_add(head, tail);
            }
            RunReport { log, result: Ok(status_to_result(status, error_msg)) }
        },
    }
}

/// A member is skipped when it is excluded by name or when an
/// inclusive-only list is given and does not name it; exclusion wins over
/// inclusion.
pub open spec fn member_skipped(
    member: Seq<char>,
    excluded: Seq<Seq<char>>,
    only: Seq<Seq<char>>,
) -> bool {
    excluded.contains(member) || (only.len() > 0 && !only.contains(member))
}

fn vec_contains_string(v: &Vec<String>, s: &String) -> (r: bool)
    ensures
        r == views_of(v@).contains(s@),
{
    let mut j: usize = 0;
    while j < v.len()
        invariant
            j <= v@.len(),
            forall|k: int| 0 <= k < j ==> views_of(v@)[k] != s@,
        decreases v@.len() - j,
    {
        if v[j] == *s {
            proof {
                assert(views_of(v@)[j as int] == s@);
            }
            return true;
        }
        proof {
            assert(views_of(v@)[j as int] == v@[j as int]@);
        }
        j += 1;
    }
    proof {
        if views_of(v@).contains(s@) {
            let k = choose|k: int| 0 <= k < views_of(v@).len() && views_of(v@)[k] == s@;
            assert(views_of(v@)[k] != s@);
        }
    }
    false
}

/// Whether the member filter skips this member.
pub fn member_filter_skips(member: &String, excluded: &Vec<String>, only: &Vec<String>) -> (r:
    bool)
    ensures
        r == member_skipped(member@, views_of(excluded@), views_of(only@)),
{
    if vec_contains_string(excluded, member) {
        return true;
    }
    only.len() > 0 && !vec_contains_string(only, member)
}

/// A non-zero exit is downgraded to success when an ignorable substring was
/// given and the captured error output holds it.
pub open spec fn ignored_failure(ignore_log: Option<Seq<char>>, stderr: Seq<char>) -> bool {
    ignore_log matches Some(l) && is_substring(l, stderr)
}

/// The skip notice logged for a filtered-out member.
pub open spec fn skip_notice(member: Seq<char>) -> Seq<char> {
    "Skip '"@ + member + "' because it has been excluded!"@
}

/// Runs one command for a single workspace member: a member the filter
/// skips succeeds at once, with a notice and without a process; otherwise
/// the supplied program's command line is logged and the program is run
/// with its output captured, and a non-zero exit is downgraded to success
/// when the captured error output holds the caller's ignorable substring,
/// the optional notice logged first.
pub fn run_process_for_package(
    name: &str,
    package: &String,
    args: &Vec<String>,
    excluded: &Vec<String>,
    only: &Vec<String>,
    error_msg: &str,
    ignore_log: Option<&str>,
    ignore_msg: Option<&str>,
    outcome: &CapturedOutcome,
) -> (r: RunReport)
    ensures
        member_skipped(package@, views_of(excluded@), views_of(only@)) ==> ({
            &&& evs(r.log@) == seq![Ev::Info(skip_notice(package@))]
            &&& r.result matches Ok(res) && res is Success
        }),
        !member_skipped(package@, views_of(excluded@), views_of(only@)) ==> (outcome matches
            CapturedOutcome::SpawnFailed(e) ==> ({
            &&& evs(r.log@) == seq![Ev::Info(command_info_line(name@, views_of(args@)))]
            &&& r.result matches Err(RunError::Spawn(m)) && m@ == e@
        })),
        !member_skipped(package@, views_of(excluded@), views_of(only@)) ==> (outcome matches
            CapturedOutcome::Captured { status, stderr } ==> ({
            &&& status.is_success() ==> ({
                &&& evs(r.log@) == seq![Ev::Info(command_info_line(name@, views_of(args@)))]
                &&& r.result matches Ok(res) && res is Success
            })
            &&& !status.is_success() && ignored_failure(opt_text(ignore_log), stderr@) ==> ({
                &&& evs(r.log@) == seq![Ev::Info(command_info_line(name@, views_of(args@)))] + (
                match ignore_msg {
                    Some(msg) => seq![Ev::Warn(msg@)],
                    None => Seq::<Ev>::empty(),
                })
                &&& r.result matches Ok(res) && res is Success
            })
            &&& !status.is_success() && !ignored_failure(opt_text(ignore_log), stderr@) ==> ({
                &&& evs(r.log@) == seq![Ev::Info(command_info_line(name@, views_of(args@)))]
                &&& r.result matches Ok(res) && res matches ExecutionResult::Failure(m) && m@
                    == error_msg@
            })
        })),
{
    if member_filter_skips(package, excluded, only) {
        let mut notice = String::from_str("Skip '");
        notice.append(package.as_str());
        notice.append("' because it has been excluded!");
        let mut log: Vec<LogEvent> = Vec::new();
        log.push(LogEvent::Info(notice));
        proof {
            assert(evs(log@) =~= seq![Ev::Info(skip_notice(package@))]);
        }
        return RunReport { log, result: Ok(ExecutionResult::Success) };
    }
    let mut log: Vec<LogEvent> = Vec::new();
    log.push(command_info(name, args));
    proof {
        assert(evs(log@) =~= seq![Ev::Info(command_info_line(name@, views_of(args@)))]);
    }
    match outcome {
        CapturedOutcome::SpawnFailed(e) => RunReport {
            log,
            result: Err(RunError::Spawn(e.clone())),
        },
        CapturedOutcome::Captured { status, stderr } => {
            if status_success(status) {
                return RunReport { log, result: Ok(ExecutionResult::Success) };
            }
            if let Some(l) = ignore_log {
                if crate::text::contains_substring(stderr.as_str(), l) {
                    if let Some(msg) = ignore_msg {
                        log.push(LogEvent::Warn(msg.to_owned()));
                        proof {
                            assert(evs(log@) =~= seq![
                                Ev::Info(command_info_line(name@, views_of(args@))),
                                Ev::Warn(msg@),
                            ]);
                        }
                    }
                    return RunReport { log, result: Ok(ExecutionResult::Success) };
                }
            }
            RunReport { log, result: Ok(ExecutionResult::Failure(error_msg.to_owned())) }
        },
    }
}

fn status_success(status: &ExitStatus) -> (r: bool)
    ensures
        r == status.is_success(),
{
    match status.code {
        Some(0i32) => true,
        _ => false,
    }
}

/// The supervised verdict of one command, decided by its outcome alone: a
/// spawn failure is surfaced as an error, distinct from any exit; a failed
/// wait and a non-zero exit terminate the program through the supervisor.
pub fn supervise_command(outcome: &CommandOutcome) -> (r: Result<SupervisedOutcome, RunError>)
    ensures
        outcome matches CommandOutcome::SpawnFailed(e) ==> (r matches Err(RunError::Spawn(m)) && m@
            == e@),
        outcome is WaitFailed ==> r == Ok::<SupervisedOutcome, RunError>(SupervisedOutcome::FatalExit(1i32)),
        outcome matches CommandOutcome::Exited(st) ==> (st.is_success() ==> (r matches Ok(v)
            && v is Completed)),
        outcome matches CommandOutcome::Exited(st) ==> (st.code matches Some(c) ==> (c != 0 ==> r
            == Ok::<SupervisedOutcome, RunError>(SupervisedOutcome::FatalExit(c)))),
        outcome matches CommandOutcome::Exited(st) ==> (st.code is None ==> r == Ok::<SupervisedOutcome, RunError>(
            SupervisedOutcome::FatalExit(1i32),
        )),
{
    match outcome {
        CommandOutcome::SpawnFailed(e) => Err(RunError::Spawn(e.clone())),
        CommandOutcome::WaitFailed => Ok(handle_child_process(&WaitOutcome::WaitFailed)),
        CommandOutcome::Exited(st) => Ok(handle_child_process(&WaitOutcome::Exited(*st))),
    }
}

/// Runs one command under the supervisor: the bare command line is logged —
/// a caller that spawns emits it first, before the spawn — and the outcome
/// decides: a spawn failure is surfaced as an error, while a failed wait or
/// a non-zero exit terminates the program with the child's code, or 1.
pub fn run_command(command: &str, args: &Vec<String>, outcome: &CommandOutcome) -> (r: (
    Vec<LogEvent>,
    Result<SupervisedOutcome, RunError>,
))
    ensures
        evs(r.0@) == seq![Ev::Info(plain_command_line(command@, views_of(args@)))],
        outcome matches CommandOutcome::SpawnFailed(e) ==> (r.1 matches Err(RunError::Spawn(m))
            && m@ == e@),
        outcome is WaitFailed ==> r.1 == Ok::<SupervisedOutcome, RunError>(SupervisedOutcome::FatalExit(1i32)),
        outcome matches CommandOutcome::Exited(st) ==> (st.is_success() ==> (r.1 matches Ok(v)
            && v is Completed)),
        outcome matches CommandOutcome::Exited(st) ==> (st.code matches Some(c) ==> (c != 0 ==> r.1
            == Ok::<SupervisedOutcome, RunError>(SupervisedOutcome::FatalExit(c)))),
        outcome matches CommandOutcome::Exited(st) ==> (st.code is None ==> r.1 == Ok::<SupervisedOutcome, RunError>(
            SupervisedOutcome::FatalExit(1i32),
        )),
{
    let mut log: Vec<LogEvent> = Vec::new();
    log.push(command_notice(command, args));
    proof {
        assert(evs(log@) =~= seq![Ev::Info(plain_command_line(command@, views_of(args@)))]);
    }
    (log, supervise_command(outcome))
}

/// Relies on `rand::thread_rng` and `rand::Rng::gen_range`: the drawn value
/// lies within the given bounds, whatever else it may be.
#[verifier::external_body]
pub fn random_port() -> (r: u16)
    ensures
        3000 <= r <= 9999,
{
    let mut rng = rand::thread_rng();
    rand::Rng::gen_range(&mut rng, 3000..=9999)
}

} // verus!
