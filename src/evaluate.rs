use vstd::prelude::*;
use crate::compare::{comparison, complete_match, trim_of, trim_text};
use crate::fixtures::{lines_of, split_lines};

verus! {

/// The fixtures of a run: the input text and the expected lines of each
/// fixture index, both indexed by position.
pub struct Fixtures {
    pub inputs: Vec<String>,
    pub outputs: Vec<Vec<String>>,
}

/// How one run of a candidate on one input ended: it exited with the bytes
/// it wrote to its output stream, or it could not be run (could not be
/// started, its input could not be written, or it could not be waited on),
/// with a message saying which.
pub enum RunOutcome {
    Exited(Vec<u8>),
    Failed(String),
}

/// What `String::from_utf8_lossy` makes of bytes: their text, with each
/// invalid sequence replaced by the replacement character.
pub uninterp spec fn lossy_of(b: Seq<u8>) -> Seq<char>;

/// Relies on `String::from_utf8_lossy`, whose result depends on the bytes
/// alone.
#[verifier::external_body]
pub(crate) fn decode_lossy(b: &Vec<u8>) -> (r: String)
    ensures
        r@ == lossy_of(b@),
{
    String::from_utf8_lossy(b.as_slice()).into_owned()
}

/// Why the evaluation of a candidate stopped without a verdict.
pub enum EvalError {
    ExecutionFailed(String),
    MissingExpectedOutput,
}

/// The text of an evaluation error.
pub open spec fn error_text(e: EvalError) -> Seq<char> {
    match e {
        EvalError::ExecutionFailed(m) => m@,
        EvalError::MissingExpectedOutput => "期待される標準出力例が見つかりません"@,
    }
}

/// The classification of a candidate.
#[derive(Clone, Copy, Debug, PartialEq, Eq, Structural)]
pub enum Status {
    Pass,
    Fail,
    Error,
}

pub open spec fn status_text(s: Status) -> Seq<char> {
    match s {
        Status::Pass => "PASS"@,
        Status::Fail => "FAIL"@,
        Status::Error => "ERROR"@,
    }
}

impl Status {
    /// The name of the status as it appears in a report.
    pub fn as_str(&self) -> (r: &'static str)
        ensures
            r@ == status_text(*self),
    {
        match self {
            Status::Pass => "PASS",
            Status::Fail => "FAIL",
            Status::Error => "ERROR",
        }
    }
}

/// The verdict on a candidate: its status, and a detail that is empty for
/// a pass.
pub struct Verdict {
    pub status: Status,
    pub detail: String,
}

/// The verdict reached from the last comparison.
pub open spec fn verdict_of(matched: bool, detail: Seq<char>) -> (Status, Seq<char>) {
    if matched {
        (Status::Pass, Seq::empty())
    } else {
        (Status::Fail, detail)
    }
}

/// The lines a run produced: its output decoded, trimmed, and cut into
/// lines.
pub open spec fn produced_lines(stdout: Seq<u8>) -> Seq<Seq<char>> {
    lines_of(trim_of(lossy_of(stdout)))
}

/// The judgement of one run on fixture `index`: a run that failed stops the
/// evaluation, as does a missing expected output; otherwise the produced
/// lines are compared with the expected ones.
pub open spec fn judged(outputs: Seq<Seq<Seq<char>>>, index: int, outcome: RunOutcome) -> Result<
    (bool, Seq<char>),
    EvalError,
> {
    match outcome {
        RunOutcome::Failed(m) => Err(EvalError::ExecutionFailed(m)),
        RunOutcome::Exited(b) => if 0 <= index < outputs.len() {
            Ok(comparison(produced_lines(b@), outputs[index]))
        } else {
            Err(EvalError::MissingExpectedOutput)
        },
    }
}

/// The outcome of a whole evaluation from fixture `next` on, with
/// `(matched, detail)` the last comparison so far, where `candidate` gives
/// the outcome of a run on each input. Every fixture is run in order, and
/// the last comparison decides.
pub open spec fn evaluation_from(
    inputs: Seq<Seq<char>>,
    outputs: Seq<Seq<Seq<char>>>,
    next: nat,
    matched: bool,
    detail: Seq<char>,
    candidate: spec_fn(Seq<char>) -> RunOutcome,
) -> Result<(Status, Seq<char>), EvalError>
    decreases inputs.len() - next,
{
    if next < inputs.len() {
        match judged(outputs, next as int, candidate(inputs[next as int])) {
            Ok(c) => evaluation_from(inputs, outputs, next + 1, c.0, c.1, candidate),
            Err(e) => Err(e),
        }
    } else {
        Ok(verdict_of(matched, detail))
    }
}

/// Evaluating twice gives the same result: over the same fixtures, two
/// candidates that answer each input in the same way reach the same verdict,
/// or stop with the same error.
pub proof fn lemma_evaluation_repeatable(
    inputs: Seq<Seq<char>>,
    outputs: Seq<Seq<Seq<char>>>,
    next: nat,
    matched: bool,
    detail: Seq<char>,
    first: spec_fn(Seq<char>) -> RunOutcome,
    second: spec_fn(Seq<char>) -> RunOutcome,
)
    requires
        forall|i: int| 0 <= i < inputs.len() ==> first(#[trigger] inputs[i]) == second(inputs[i]),
    ensures
        evaluation_from(inputs, outputs, next, matched, detail, first) == evaluation_from(
            inputs,
            outputs,
            next,
            matched,
            detail,
            second,
        ),
    decreases inputs.len() - next,
{
    if next < inputs.len() {
        assert(first(inputs[next as int]) == second(inputs[next as int]));
        match judged(outputs, next as int, first(inputs[next as int])) {
            Ok(c) => lemma_evaluation_repeatable(
                inputs,
                outputs,
                next + 1,
                c.0,
                c.1,
                first,
                second,
            ),
            Err(_) => {},
        }
    }
}

/// When some input has no expected output, an evaluation that has not yet
/// passed the last expected output never ends in a pass or a fail: it stops
/// with an error.
pub proof fn lemma_missing_output_is_error(
    inputs: Seq<Seq<char>>,
    outputs: Seq<Seq<Seq<char>>>,
    next: nat,
    matched: bool,
    detail: Seq<char>,
    candidate: spec_fn(Seq<char>) -> RunOutcome,
)
    requires
        outputs.len() < inputs.len(),
        next <= outputs.len(),
    ensures
        evaluation_from(inputs, outputs, next, matched, detail, candidate) is Err,
    decreases inputs.len() - next,
{
    if next < inputs.len() {
        match judged(outputs, next as int, candidate(inputs[next as int])) {
            Ok(c) => lemma_missing_output_is_error(inputs, outputs, next + 1, c.0, c.1, candidate),
            Err(_) => {},
        }
    }
}

/// What to do next in an evaluation: run the candidate on the input of a
/// fixture index, or report the verdict.
pub enum Step {
    Run(usize),
    Finished(Verdict),
}

/// The evaluation of one candidate, in progress: the next fixture index to
/// run, and the last comparison made (a match with an empty detail before
/// any run).
pub struct Evaluation {
    pub next: usize,
    pub matched: bool,
    pub detail: String,
}

impl Evaluation {
    /// An evaluation that has run nothing yet.
    pub fn new() -> (r: Evaluation)
        ensures
            r.next == 0,
            r.matched,
            r.detail@ == Seq::<char>::empty(),
    {
        Evaluation { next: 0, matched: true, detail: String::new() }
    }

    /// Decides the next step: a run on the next fixture index while one is
    /// left, and then the verdict of the last comparison.
    pub fn step(&self, fixtures: &Fixtures) -> (r: Step)
        ensures
            self.next < fixtures.inputs.len() ==> r == Step::Run(self.next),
            self.next >= fixtures.inputs.len() ==> (r matches Step::Finished(v) && (
            v.status,
            v.detail@,
            ) == verdict_of(self.matched, self.detail@)),
    {
        if self.next < fixtures.inputs.len() {
            Step::Run(self.next)
        } else if self.matched {
            Step::Finished(Verdict { status: Status::Pass, detail: String::new() })
        } else {
            Step::Finished(Verdict { status: Status::Fail, detail: self.detail.clone() })
        }
    }

    /// Takes in how the run on fixture `self.next` ended. A failed run, or a
    /// missing expected output, ends the evaluation with that error;
    /// otherwise the produced lines are compared with the expected ones, and
    /// that comparison replaces the last one.
    pub fn advance(self, fixtures: &Fixtures, outcome: RunOutcome) -> (r: Result<
        Evaluation,
        EvalError,
    >)
        requires
            self.next < fixtures.inputs.len(),
        ensures
            (outcome is Exited && self.next >= fixtures.outputs.len()) ==> r == Err::<
                Evaluation,
                EvalError,
            >(EvalError::MissingExpectedOutput),
            match judged(fixtures.outputs.deep_view(), self.next as int, outcome) {
                Ok(c) => (r matches Ok(s) && s.next == self.next + 1 && s.matched == c.0
                    && s.detail@ == c.1),
                Err(e) => r == Err::<Evaluation, EvalError>(e),
            },
    {
        match outcome {
            RunOutcome::Failed(m) => Err(EvalError::ExecutionFailed(m)),
            RunOutcome::Exited(b) => {
                if self.next >= fixtures.outputs.len() {
                    return Err(EvalError::MissingExpectedOutput);
                }
                let text = decode_lossy(&b);
                let trimmed = trim_text(text.as_str());
                let lines = split_lines(trimmed.as_str());
                let (matched, detail) = complete_match(lines, &fixtures.outputs[self.next]);
                proof {
                    assert(fixtures.outputs.deep_view()[self.next as int]
                        == fixtures.outputs@[self.next as int].deep_view());
                }
                Ok(Evaluation { next: self.next + 1, matched, detail })
            },
        }
    }
}

impl EvalError {
    /// The verdict recorded for a candidate whose evaluation stopped with
    /// this error: an error status, and the error's text as detail.
    pub fn verdict(&self) -> (r: Verdict)
        ensures
            r.status == Status::Error,
            r.detail@ == "実行エラー: "@ + error_text(*self),
    {
        let mut d = String::from_str("実行エラー: ");
        match self {
            EvalError::ExecutionFailed(m) => d.append(m.as_str()),
            EvalError::MissingExpectedOutput => d.append("期待される標準出力例が見つかりません"),
        }
        Verdict { status: Status::Error, detail: d }
    }
}

} // verus!
