//! A step of one of the runtime's procedures: what it prints, and where it goes next.

use crate::system::{Failure, FailureView, Line, LineView, Stream, IDENTITY_LEN};
use crate::text::{decimal, u64_text};
use vstd::prelude::*;

verus! {

/// Where a procedure goes after the system has answered.
#[derive(Debug)]
pub enum Flow<S, R> {
    /// On to another stage of the procedure.
    Next(S),
    /// Back to the caller.
    Return(R),
    /// The process exits with this status.
    Exit(i32),
    /// The process panics, with the message that was printed last.
    Panic,
}

/// What a procedure does after the system has answered.
#[derive(Debug)]
pub struct Step<S, R> {
    pub lines: Vec<Line>,
    pub flow: Flow<S, R>,
}

/// The mathematical value of a [`Step`].
#[verifier::ext_equal]
pub struct StepView<S, R> {
    pub lines: Seq<LineView>,
    pub flow: Flow<S, R>,
}

/// The mathematical value of a list of lines.
pub open spec fn lines_view(lines: Vec<Line>) -> Seq<LineView> {
    lines@.map_values(|line: Line| line@)
}

impl<S, R> View for Step<S, R> {
    type V = StepView<S, R>;

    open spec fn view(&self) -> StepView<S, R> {
        StepView { lines: lines_view(self.lines), flow: self.flow }
    }
}

/// A line on standard output.
pub open spec fn out(text: Seq<char>) -> LineView {
    LineView { stream: Stream::Stdout, text }
}

/// A line on standard error.
pub open spec fn err(text: Seq<char>) -> LineView {
    LineView { stream: Stream::Stderr, text }
}

/// The step that prints nothing and goes on.
pub open spec fn goes_to<S, R>(flow: Flow<S, R>) -> StepView<S, R> {
    StepView { lines: seq![], flow }
}

/// The step that prints one line and goes on.
pub open spec fn says<S, R>(line: LineView, flow: Flow<S, R>) -> StepView<S, R> {
    StepView { lines: seq![line], flow }
}

/// The step on a failure that ends the process: the reason and the error on standard error,
/// and exit status 1.
pub open spec fn exits<S, R>(reason: Seq<char>, failure: FailureView) -> StepView<S, R> {
    says(err(reason + failure.display), Flow::Exit(1))
}

/// The step on a failure that the process does not survive: a panic with the reason and the
/// error.
pub open spec fn panics<S, R>(reason: Seq<char>, error: Seq<char>) -> StepView<S, R> {
    says(LineView { stream: Stream::Panic, text: reason + error }, Flow::Panic)
}

/// What the panic on a transfer of `count` bytes, which is not a whole identity, says.
pub open spec fn incomplete(count: usize) -> Seq<char> {
    decimal(count as nat) + " of "@ + decimal(IDENTITY_LEN as nat) + " bytes"@
}

/// The step of a caller whose callee made `step`: it waits where the callee waits, and goes on
/// by `resume` where the callee returns.
pub open spec fn within<S, R, T, U>(
    step: StepView<S, R>,
    wrap: spec_fn(S) -> T,
    resume: spec_fn(R) -> Flow<T, U>,
) -> StepView<T, U> {
    StepView {
        lines: step.lines,
        flow: match step.flow {
            Flow::Next(stage) => Flow::Next(wrap(stage)),
            Flow::Return(value) => resume(value),
            Flow::Exit(status) => Flow::Exit(status),
            Flow::Panic => Flow::Panic,
        },
    }
}

/// `a` followed by `b`.
pub fn join(a: &str, b: &str) -> (text: String)
    ensures
        text@ == a@ + b@,
{
    let mut text = a.to_owned();
    text.append(b);
    text
}

/// Goes on without a word.
pub fn silent_step<S, R>(flow: Flow<S, R>) -> (step: Step<S, R>)
    ensures
        step@ == goes_to(flow),
{
    Step { lines: Vec::new(), flow }
}

/// Prints one line and goes on.
pub fn line_step<S, R>(stream: Stream, text: String, flow: Flow<S, R>) -> (step: Step<S, R>)
    ensures
        step@ == says(LineView { stream, text: text@ }, flow),
{
    let mut lines: Vec<Line> = Vec::new();
    lines.push(Line { stream, text });
    Step { lines, flow }
}

/// Reports a failure and ends the process with exit status 1.
pub fn exit_step<S, R>(reason: &str, failure: &Failure) -> (step: Step<S, R>)
    ensures
        step@ == exits::<S, R>(reason@, failure@),
{
    line_step(Stream::Stderr, join(reason, failure.display.as_str()), Flow::Exit(1))
}

/// Says that a transfer of `count` bytes is not a whole identity.
pub fn incomplete_text(count: usize) -> (text: String)
    ensures
        text@ == incomplete(count),
{
    let mut text = u64_text(count as u64);
    text.append(" of ");
    text.append(u64_text(IDENTITY_LEN as u64).as_str());
    text.append(" bytes");
    text
}

/// Ends the process by a panic.
pub fn panic_step<S, R>(reason: &str, error: &str) -> (step: Step<S, R>)
    ensures
        step@ == panics::<S, R>(reason@, error@),
{
    line_step(Stream::Panic, join(reason, error), Flow::Panic)
}

/// The value of a step holds all that the step holds.
pub proof fn law_step_view<S, R>(step: Step<S, R>)
    ensures
        step@.flow == step.flow,
        step@.lines.len() == step.lines@.len(),
        forall|i: int|
            0 <= i < step.lines@.len() ==> {
                &&& (#[trigger] step@.lines[i]).stream == step.lines@[i].stream
                &&& step@.lines[i].text == step.lines@[i].text@
            },
{
}

} // verus!
