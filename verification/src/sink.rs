//! ResultSink: the append-only audit log of per-stage outcomes.
//!
//! Every stage of every key writes exactly one line. Appends never merge
//! two lines and never drop one: each append extends the log by exactly
//! the given line. Callers that share one sink across concurrent workers
//! put it behind a mutual-exclusion lock held for the length of one
//! append.

use vstd::prelude::*;

use crate::pipeline::{RoofStep, RoofStepResult};

verus! {

/// The append-only log: one line per recorded stage outcome.
#[derive(Debug)]
pub struct ResultSink {
    lines: Vec<String>,
}

impl View for ResultSink {
    type V = Seq<Seq<char>>;

    closed spec fn view(&self) -> Seq<Seq<char>> {
        self.lines.deep_view()
    }
}

impl ResultSink {
    /// An empty log.
    pub fn new() -> (r: ResultSink)
        ensures
            r@ == Seq::<Seq<char>>::empty(),
    {
        let sink = ResultSink { lines: Vec::new() };
        proof {
            assert(sink@ =~= Seq::<Seq<char>>::empty());
        }
        sink
    }

    /// Appends one line: the log afterwards is the old log with exactly
    /// that line at the end — nothing lost, nothing merged.
    pub fn append_line(&mut self, line: String)
        ensures
            final(self)@ == old(self)@.push(line@),
    {
        let ghost before = self@;
        self.lines.push(line);
        proof {
            assert(self@ =~= before.push(line@));
        }
    }

    /// How many lines the log holds.
    pub fn len(&self) -> (r: usize)
        ensures
            r == self@.len(),
    {
        self.lines.len()
    }

    /// One line of the log.
    pub fn line_at(&self, i: usize) -> (r: &String)
        requires
            i < self@.len(),
        ensures
            r@ == self@[i as int],
    {
        &self.lines[i]
    }
}

/// The display name of one stage.
pub open spec fn spec_step_name(s: RoofStep) -> Seq<char> {
    match s {
        RoofStep::KeyFiltrele => "KeyFiltrele"@,
        RoofStep::MenuGetir => "MenuGetir"@,
        RoofStep::Flagger => "Flagger"@,
        RoofStep::IstekAt => "IstekAt"@,
    }
}

/// The display name of one stage.
pub fn step_name(s: RoofStep) -> (r: &'static str)
    ensures
        r@ == spec_step_name(s),
{
    match s {
        RoofStep::KeyFiltrele => "KeyFiltrele",
        RoofStep::MenuGetir => "MenuGetir",
        RoofStep::Flagger => "Flagger",
        RoofStep::IstekAt => "IstekAt",
    }
}

/// The audit line for one stage outcome of one key: the key, the stage
/// and either `ok` or `err: ` with the failure's reason, separated by
/// ` | `.
pub open spec fn spec_outcome_line(
    key: Seq<char>,
    step: RoofStep,
    result: Result<(), Seq<char>>,
) -> Seq<char> {
    key + " | "@ + spec_step_name(step) + " | "@ + (match result {
        Ok(_) => "ok"@,
        Err(reason) => "err: "@ + reason,
    })
}

/// Renders the audit line for one stage outcome.
pub fn outcome_line(key: &str, outcome: &RoofStepResult) -> (r: String)
    ensures
        r@ == spec_outcome_line(
            key@,
            outcome.step,
            match outcome.result {
                Ok(_) => Ok(()),
                Err(ref reason) => Err(reason@),
            },
        ),
{
    let mut out: String = key.to_owned();
    out.append(" | ");
    out.append(step_name(outcome.step));
    out.append(" | ");
    match &outcome.result {
        Ok(_) => {
            out.append("ok");
            proof {
                assert(out@ =~= spec_outcome_line(key@, outcome.step, Ok(())));
            }
        },
        Err(reason) => {
            out.append("err: ");
            out.append(reason.as_str());
            proof {
                assert(out@ =~= spec_outcome_line(
                    key@,
                    outcome.step,
                    Err(outcome.result->Err_0@),
                ));
            }
        },
    }
    out
}

} // verus!
