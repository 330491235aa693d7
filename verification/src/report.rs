//! What is reported of one guest execution: the captured output and error
//! text, each only if there is any, and how the entry point ended.

use crate::driver::ExecutionResult;
use vstd::prelude::*;
use vstd::string::StringExecFns;

verus! {

/// The report of one execution.
#[derive(Clone, Debug)]
pub struct ExecutionReport {
    /// The text drained from the output stream, if it is not empty.
    pub stdout: Option<String>,
    /// The text drained from the error stream, if it is not empty.
    pub stderr: Option<String>,
    /// How the entry point ended.
    pub result: ExecutionResult,
}

/// The text drained from a captured stream as it is reported: kept,
/// unchanged, only if it is not empty.
pub fn captured(text: String) -> (kept: Option<String>)
    ensures
        text@.len() == 0 ==> kept is None,
        text@.len() > 0 ==> kept == Some(text),
{
    if text.as_str().is_empty() {
        None
    } else {
        Some(text)
    }
}

/// The views of a list of strings, in order.
pub open spec fn texts(lines: Seq<String>) -> Seq<Seq<char>> {
    Seq::new(lines.len(), |i: int| lines[i]@)
}

/// The line that announces captured text, if there is any.
pub open spec fn captured_lines(label: Seq<char>, text: Option<String>) -> Seq<Seq<char>> {
    match text {
        Some(text) => seq![label + text@],
        None => Seq::empty(),
    }
}

/// The lines that say how the entry point ended: `Success`, or the
/// diagnostic of the trap followed by its trace, frame by frame.
pub open spec fn status_lines(result: ExecutionResult) -> Seq<Seq<char>> {
    match result {
        ExecutionResult::Completed { .. } => seq!["Success"@],
        ExecutionResult::Trapped { diagnostic, trace } => seq!["Runtime Error: "@ + diagnostic@]
            + texts(trace@),
    }
}

impl ExecutionReport {
    /// The report of an execution that ended with `result` and whose
    /// streams held `stdout` and `stderr`.
    pub fn new(result: ExecutionResult, stdout: String, stderr: String) -> (report: Self)
        ensures
            report.result == result,
            stdout@.len() == 0 ==> report.stdout is None,
            stdout@.len() > 0 ==> report.stdout == Some(stdout),
            stderr@.len() == 0 ==> report.stderr is None,
            stderr@.len() > 0 ==> report.stderr == Some(stderr),
    {
        ExecutionReport { stdout: captured(stdout), stderr: captured(stderr), result }
    }

    /// The lines of the report, as mathematical sequences.
    pub open spec fn spec_lines(&self) -> Seq<Seq<char>> {
        captured_lines("Std out: "@, self.stdout) + captured_lines("Std err: "@, self.stderr)
            + status_lines(self.result)
    }

    /// The lines of the report, for a person to read: the captured output
    /// and error text, each if there is any, and then the status.
    pub fn lines(&self) -> (lines: Vec<String>)
        ensures
            texts(lines@) == self.spec_lines(),
    {
        let mut lines: Vec<String> = Vec::new();
        match &self.stdout {
            Some(text) => {
                lines.push(String::from_str("Std out: ").concat(text.as_str()));
            },
            None => {},
        }
        assert(texts(lines@) =~= captured_lines("Std out: "@, self.stdout));
        match &self.stderr {
            Some(text) => {
                lines.push(String::from_str("Std err: ").concat(text.as_str()));
            },
            None => {},
        }
        assert(texts(lines@) =~= captured_lines("Std out: "@, self.stdout) + captured_lines(
            "Std err: "@,
            self.stderr,
        ));
        let ghost head = texts(lines@);
        match &self.result {
            ExecutionResult::Completed { .. } => {
                lines.push(String::from_str("Success"));
                assert(texts(lines@) =~= head + status_lines(self.result));
            },
            ExecutionResult::Trapped { diagnostic, trace } => {
                lines.push(String::from_str("Runtime Error: ").concat(diagnostic.as_str()));
                let ghost first = texts(lines@);
                assert(first =~= head + seq!["Runtime Error: "@ + diagnostic@]);
                let mut i: usize = 0;
                while i < trace.len()
                    invariant
                        i <= trace@.len(),
                        texts(lines@) == first + texts(trace@.take(i as int)),
                    decreases trace@.len() - i,
                {
                    let ghost before = lines@;
                    let frame = trace[i].clone();
                    lines.push(frame);
                    proof {
                        let taken = trace@.take(i as int);
                        assert(trace@.take(i as int + 1) =~= taken.push(trace@[i as int]));
                        assert(texts(taken.push(trace@[i as int])) =~= texts(taken).push(frame@));
                        assert(texts(before.push(frame)) =~= texts(before).push(frame@));
                        assert(texts(lines@) =~= first + texts(trace@.take(i as int + 1)));
                    }
                    i += 1;
                }
                assert(trace@.take(trace@.len() as int) =~= trace@);
                assert(texts(lines@) =~= head + status_lines(self.result));
            },
        }
        lines
    }
}

} // verus!
