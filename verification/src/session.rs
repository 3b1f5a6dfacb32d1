use vstd::prelude::*;
use vstd::string::*;
use vstd::utf8::{decode_utf8, valid_utf8};
use crate::adb::texts;
use crate::client::{must_install_client, needs_install};
use crate::execution_error::{
    Cmd, CommandExecutionError, ErrorView, ProcessIoError, ProcessStatusError,
};

verus! {

/// Milliseconds to wait after installing the client, so that its intent
/// actions are registered before the client is started.
pub const INSTALL_PAUSE_MILLIS: u64 = 500;

/// One unit of outside work in a command.
#[derive(Clone, Debug, PartialEq, Eq)]
pub enum Op {
    /// Run `adb` with these arguments.
    Adb(Vec<String>),
    /// Run `adb` with `query` and capture its output, which tells whether the
    /// client must be installed; if so, run `adb` with `install`, then pause.
    CheckClient { query: Vec<String>, install: Vec<String> },
    /// Wait this many milliseconds.
    Pause(u64),
}

/// What became of an `Op`.
#[derive(Clone, Debug, PartialEq, Eq)]
pub enum Outcome {
    /// The work was done; for adb, it exited successfully, and this is what it
    /// wrote to its standard output (empty where the output was not kept).
    Success(Vec<u8>),
    /// adb exited unsuccessfully with this exit code (`None`: ended by a signal).
    Status(Option<i32>),
    /// adb could not be run; the system's message.
    Io(String),
}

/// An `Op`, as texts.
pub enum OpView {
    Adb(Seq<Seq<char>>),
    CheckClient(Seq<Seq<char>>, Seq<Seq<char>>),
    Pause(u64),
}

/// An `Outcome`, as plain values.
pub enum OutcomeView {
    Success(Seq<u8>),
    Status(Option<i32>),
    Io(Seq<char>),
}

impl View for Op {
    type V = OpView;

    open spec fn view(&self) -> OpView {
        match self {
            Op::Adb(args) => OpView::Adb(texts(args@)),
            Op::CheckClient { query, install } => OpView::CheckClient(
                texts(query@),
                texts(install@),
            ),
            Op::Pause(ms) => OpView::Pause(*ms),
        }
    }
}

impl View for Outcome {
    type V = OutcomeView;

    open spec fn view(&self) -> OutcomeView {
        match self {
            Outcome::Success(out) => OutcomeView::Success(out@),
            Outcome::Status(code) => OutcomeView::Status(*code),
            Outcome::Io(msg) => OutcomeView::Io(msg@),
        }
    }
}

/// The views of a sequence of ops.
pub open spec fn op_views(ops: Seq<Op>) -> Seq<OpView> {
    ops.map_values(|op: Op| op@)
}

/// The error reported when adb, run with `args`, had the outcome `outcome`;
/// `None` when it succeeded.
pub open spec fn adb_failure(args: Seq<Seq<char>>, outcome: OutcomeView) -> Option<ErrorView> {
    match outcome {
        OutcomeView::Success(_) => None,
        OutcomeView::Status(code) => Some(ErrorView::ProcessStatus { command: "adb"@, args, code }),
        OutcomeView::Io(message) => Some(ErrorView::ProcessIo { command: "adb"@, args, message }),
    }
}

/// The text that `String::from_utf8_lossy` makes of `bytes`.
pub uninterp spec fn utf8_lossy(bytes: Seq<u8>) -> Seq<char>;

/// Calls `String::from_utf8_lossy`, which decodes `bytes` as UTF-8 and puts
/// U+FFFD in place of each invalid sequence. The contract names the result,
/// and states that valid UTF-8 is decoded as it is; which replacements are
/// made in invalid input is left unsaid.
#[verifier::external_body]
pub(crate) fn decode_lossy(bytes: &Vec<u8>) -> (text: String)
    ensures
        text@ == utf8_lossy(bytes@),
        valid_utf8(bytes@) ==> text@ == decode_utf8(bytes@),
{
    String::from_utf8_lossy(bytes.as_slice()).into_owned()
}

/// The ops that remain after the first op of `pending` had the outcome
/// `outcome`, or the error with which the command stops.
pub open spec fn step(pending: Seq<OpView>, outcome: OutcomeView) -> Result<Seq<OpView>, ErrorView>
    recommends
        pending.len() > 0,
{
    let rest = pending.drop_first();
    match pending[0] {
        OpView::Adb(args) => match adb_failure(args, outcome) {
            Some(e) => Err(e),
            None => Ok(rest),
        },
        OpView::CheckClient(query, install) => match adb_failure(query, outcome) {
            Some(e) => Err(e),
            None => {
                let output = match outcome {
                    OutcomeView::Success(out) => out,
                    _ => Seq::empty(),
                };
                if needs_install(utf8_lossy(output)) {
                    Ok(seq![OpView::Adb(install), OpView::Pause(INSTALL_PAUSE_MILLIS)] + rest)
                } else {
                    Ok(rest)
                }
            },
        },
        OpView::Pause(_) => Ok(rest),
    }
}

/// How carrying out a sequence of ops ends, given the outcomes of the ops
/// that are done, in order.
pub enum RunEnd {
    /// Every op succeeded; this many outcomes were used.
    Completed(nat),
    /// An op failed with this error; nothing after it was done.
    Failed(ErrorView),
    /// The outcomes ran out; these ops remain.
    Waiting(Seq<OpView>),
}

/// How carrying out `pending` ends when its ops have the outcomes
/// `outcomes`, one outcome per op done, as `Session::report` takes them.
pub open spec fn run(pending: Seq<OpView>, outcomes: Seq<OutcomeView>) -> RunEnd
    decreases outcomes.len(),
{
    if pending.len() == 0 {
        RunEnd::Completed(0)
    } else if outcomes.len() == 0 {
        RunEnd::Waiting(pending)
    } else {
        match step(pending, outcomes[0]) {
            Err(e) => RunEnd::Failed(e),
            Ok(rest) => match run(rest, outcomes.drop_first()) {
                RunEnd::Completed(n) => RunEnd::Completed(n + 1),
                other => other,
            },
        }
    }
}

/// How carrying out `second` goes on once `first` has ended, with the
/// outcomes that `first` left unused.
pub open spec fn run_after(first: RunEnd, second: Seq<OpView>, outcomes: Seq<OutcomeView>) -> RunEnd {
    match first {
        RunEnd::Completed(n) => match run(second, outcomes.skip(n as int)) {
            RunEnd::Completed(m) => RunEnd::Completed(n + m),
            other => other,
        },
        RunEnd::Failed(e) => RunEnd::Failed(e),
        RunEnd::Waiting(rest) => RunEnd::Waiting(rest + second),
    }
}

/// A completed run used no more outcomes than there were.
pub proof fn lemma_run_uses_given_outcomes(pending: Seq<OpView>, outcomes: Seq<OutcomeView>)
    ensures
        run(pending, outcomes) matches RunEnd::Completed(n) ==> n <= outcomes.len(),
    decreases outcomes.len(),
{
    if pending.len() > 0 && outcomes.len() > 0 {
        if let Ok(rest) = step(pending, outcomes[0]) {
            lemma_run_uses_given_outcomes(rest, outcomes.drop_first());
        }
    }
}

/// The first op decides the step alone: what follows it is carried along.
pub proof fn lemma_step_concat(a: Seq<OpView>, b: Seq<OpView>, outcome: OutcomeView)
    requires
        a.len() > 0,
    ensures
        step(a + b, outcome) == match step(a, outcome) {
            Ok(rest) => Ok(rest + b),
            Err(e) => Err::<Seq<OpView>, ErrorView>(e),
        },
{
    assert((a + b)[0] == a[0]);
    assert((a + b).drop_first() =~= a.drop_first() + b);
    let x = a[0];
    if let OpView::CheckClient(query, install) = x {
        let inserted = seq![OpView::Adb(install), OpView::Pause(INSTALL_PAUSE_MILLIS)];
        assert(inserted + (a.drop_first() + b) =~= (inserted + a.drop_first()) + b);
    }
}

/// Carrying out `a` followed by `b` is carrying out `a`, then, only if every
/// op of `a` succeeded, carrying out `b` with the outcomes that remain; a
/// failure in `a` ends the whole with that failure.
pub proof fn lemma_run_concat(a: Seq<OpView>, b: Seq<OpView>, outcomes: Seq<OutcomeView>)
    ensures
        run(a + b, outcomes) == run_after(run(a, outcomes), b, outcomes),
    decreases outcomes.len(),
{
    if a.len() == 0 {
        assert(a + b =~= b);
        assert(outcomes.skip(0) =~= outcomes);
    } else if outcomes.len() == 0 {
    } else {
        lemma_step_concat(a, b, outcomes[0]);
        if let Ok(rest) = step(a, outcomes[0]) {
            let tail = outcomes.drop_first();
            lemma_run_concat(rest, b, tail);
            if let RunEnd::Completed(k) = run(rest, tail) {
                lemma_run_uses_given_outcomes(rest, tail);
                assert(tail.skip(k as int) =~= outcomes.skip(k + 1 as int));
            }
        }
    }
}

/// What adb printed, where an outcome holds it.
pub open spec fn output_of(outcome: OutcomeView) -> Seq<u8> {
    match outcome {
        OutcomeView::Success(out) => out,
        _ => Seq::empty(),
    }
}

/// A single adb invocation succeeds exactly when adb exits successfully;
/// otherwise it fails with the command line `adb <args>` and the exit code,
/// or the reason adb could not be run.
pub proof fn lemma_adb_invocation(args: Seq<Seq<char>>, outcome: OutcomeView)
    ensures
        run(seq![OpView::Adb(args)], seq![outcome]) == match adb_failure(args, outcome) {
            Some(e) => RunEnd::Failed(e),
            None => RunEnd::Completed(1),
        },
{
    reveal_with_fuel(run, 2);
    assert(seq![OpView::Adb(args)].drop_first() =~= Seq::<OpView>::empty());
}

/// The ops of a command that remain to be done, in order. The command is
/// carried out by doing `current()`, reporting its outcome with `report`, and
/// so on until `current()` is `None` (the command succeeded) or `report`
/// returns an error (the command failed with it).
#[derive(Debug)]
pub struct Session {
    ops: Vec<Op>,
}

impl Session {
    /// The ops still to be done.
    pub closed spec fn pending(&self) -> Seq<OpView> {
        op_views(self.ops@)
    }

    pub fn new(ops: Vec<Op>) -> (session: Session)
        ensures
            session.pending() == op_views(ops@),
    {
        Session { ops }
    }

    /// The op to do next; `None` once every op has succeeded.
    pub fn current(&self) -> (op: Option<&Op>)
        ensures
            op is None <==> self.pending().len() == 0,
            op matches Some(op) ==> op@ == self.pending()[0],
    {
        if self.ops.len() == 0 {
            None
        } else {
            Some(&self.ops[0])
        }
    }

    /// Takes the outcome of the current op: the session that carries on, or
    /// the error that ends the command, as `step` says.
    pub fn report(self, outcome: Outcome) -> (next: Result<Session, CommandExecutionError>)
        requires
            self.pending().len() > 0,
        ensures
            match step(self.pending(), outcome@) {
                Ok(pending) => next matches Ok(session) && session.pending() == pending,
                Err(e) => next matches Err(err) && err@ == e,
            },
    {
        let ghost before = self.pending();
        let mut ops = self.ops;
        let op = ops.remove(0);
        proof {
            assert(op_views(ops@) =~= before.drop_first());
        }
        match op {
            Op::Adb(args) => match outcome {
                Outcome::Success(_) => Ok(Session { ops }),
                Outcome::Status(code) => Err(
                    CommandExecutionError::ProcessStatus(
                        ProcessStatusError { cmd: Cmd::new("adb", args), code },
                    ),
                ),
                Outcome::Io(message) => Err(
                    CommandExecutionError::ProcessIo(
                        ProcessIoError { cmd: Cmd::new("adb", args), message },
                    ),
                ),
            },
            Op::CheckClient { query, install } => match outcome {
                Outcome::Success(output) => {
                    let text = decode_lossy(&output);
                    if must_install_client(text.as_str()) {
                        let ghost rest = ops@;
                        ops.insert(0, Op::Pause(INSTALL_PAUSE_MILLIS));
                        ops.insert(0, Op::Adb(install));
                        proof {
                            assert(op_views(ops@) =~= seq![
                                OpView::Adb(texts(install@)),
                                OpView::Pause(INSTALL_PAUSE_MILLIS),
                            ] + op_views(rest));
                        }
                    }
                    Ok(Session { ops })
                },
                Outcome::Status(code) => Err(
                    CommandExecutionError::ProcessStatus(
                        ProcessStatusError { cmd: Cmd::new("adb", query), code },
                    ),
                ),
                Outcome::Io(message) => Err(
                    CommandExecutionError::ProcessIo(
                        ProcessIoError { cmd: Cmd::new("adb", query), message },
                    ),
                ),
            },
            Op::Pause(_) => Ok(Session { ops }),
        }
    }
}

} // verus!
