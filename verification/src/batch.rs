//! A batch: every discovered file is converted in turn, and a file that fails
//! is reported and left out while the rest goes on.
use vstd::prelude::*;
use crate::error::PipelineError;
use crate::naming::{display_name, display_name_of};
use crate::report::{skipping_line, skipping_text, ConversionResult};

verus! {

/// How the conversion of one file of the batch ended.
#[derive(Debug)]
pub struct FileOutcome {
    pub input_path: String,
    pub outcome: Result<ConversionResult, PipelineError>,
}

/// A file that the batch left out, and why.
#[derive(Debug)]
pub struct Skipped {
    pub input_path: String,
    pub error: PipelineError,
}

/// What became of the files of a batch: the results of those that were
/// converted and the files that were skipped, each in the order of the run.
#[derive(Debug)]
pub struct BatchReport {
    pub converted: Vec<ConversionResult>,
    pub skipped: Vec<Skipped>,
}

/// The results of the files that were converted, in order.
pub open spec fn converted_of(outcomes: Seq<FileOutcome>) -> Seq<ConversionResult> {
    outcomes.filter(|file: FileOutcome| file.outcome is Ok).map_values(
        |file: FileOutcome| file.outcome->Ok_0,
    )
}

/// The files that failed, each with its error, in order.
pub open spec fn skipped_of(outcomes: Seq<FileOutcome>) -> Seq<Skipped> {
    outcomes.filter(|file: FileOutcome| file.outcome is Err).map_values(
        |file: FileOutcome| Skipped { input_path: file.input_path, error: file.outcome->Err_0 },
    )
}

/// The line shown for a skipped file.
pub open spec fn diagnostic_of(skipped: Skipped) -> Seq<char> {
    skipping_text(display_name(skipped.input_path@))
}

/// The lines shown for the files that failed, in order.
pub open spec fn diagnostics_of(outcomes: Seq<FileOutcome>) -> Seq<Seq<char>> {
    skipped_of(outcomes).map_values(|skipped: Skipped| diagnostic_of(skipped))
}

/// One more file adds its result to the converted ones if it succeeded, and
/// itself to the skipped ones if it failed; what was recorded before stays.
pub proof fn lemma_outcome_step(outcomes: Seq<FileOutcome>, next: FileOutcome)
    ensures
        converted_of(outcomes.push(next)) == match next.outcome {
            Ok(result) => converted_of(outcomes).push(result),
            Err(_) => converted_of(outcomes),
        },
        skipped_of(outcomes.push(next)) == match next.outcome {
            Ok(_) => skipped_of(outcomes),
            Err(error) => skipped_of(outcomes).push(
                Skipped { input_path: next.input_path, error },
            ),
        },
        converted_of(Seq::empty()) == Seq::<ConversionResult>::empty(),
        skipped_of(Seq::empty()) == Seq::<Skipped>::empty(),
{
    reveal(Seq::filter);
    assert(outcomes.push(next).drop_last() == outcomes);
    assert(converted_of(outcomes.push(next)) =~= match next.outcome {
        Ok(result) => converted_of(outcomes).push(result),
        Err(_) => converted_of(outcomes),
    });
    assert(skipped_of(outcomes.push(next)) =~= match next.outcome {
        Ok(_) => skipped_of(outcomes),
        Err(error) => skipped_of(outcomes).push(Skipped { input_path: next.input_path, error }),
    });
    assert(converted_of(Seq::empty()) =~= Seq::<ConversionResult>::empty());
    assert(skipped_of(Seq::empty()) =~= Seq::<Skipped>::empty());
}

/// Every file of a batch is accounted for: it is among the converted ones or
/// among the skipped ones, and each skipped one has its line.
pub proof fn lemma_every_file_accounted_for(outcomes: Seq<FileOutcome>)
    ensures
        converted_of(outcomes).len() + skipped_of(outcomes).len() == outcomes.len(),
        diagnostics_of(outcomes).len() == skipped_of(outcomes).len(),
    decreases outcomes.len(),
{
    if outcomes.len() == 0 {
        lemma_outcome_step(outcomes, arbitrary());
        assert(outcomes == Seq::<FileOutcome>::empty());
    } else {
        let rest = outcomes.drop_last();
        lemma_every_file_accounted_for(rest);
        lemma_outcome_step(rest, outcomes.last());
        assert(rest.push(outcomes.last()) == outcomes);
    }
}

/// What is recorded of two runs, one after the other, is what is recorded of
/// the first followed by what is recorded of the second.
pub proof fn lemma_outcomes_concat(first: Seq<FileOutcome>, second: Seq<FileOutcome>)
    ensures
        converted_of(first + second) == converted_of(first) + converted_of(second),
        skipped_of(first + second) == skipped_of(first) + skipped_of(second),
{
    Seq::filter_distributes_over_add(first, second, |file: FileOutcome| file.outcome is Ok);
    Seq::filter_distributes_over_add(first, second, |file: FileOutcome| file.outcome is Err);
    assert(converted_of(first + second) =~= converted_of(first) + converted_of(second));
    assert(skipped_of(first + second) =~= skipped_of(first) + skipped_of(second));
}

/// Failure isolation: a file that fails takes no other file with it. The
/// results of the batch are those of the same batch without the failed file,
/// and the skipped files are those of the rest with the failed one in its
/// place among them.
pub proof fn lemma_failure_isolation(outcomes: Seq<FileOutcome>, at: int)
    requires
        0 <= at < outcomes.len(),
        outcomes[at].outcome is Err,
    ensures
        converted_of(outcomes) == converted_of(outcomes.remove(at)),
        skipped_of(outcomes) == skipped_of(outcomes.subrange(0, at)).push(
            Skipped { input_path: outcomes[at].input_path, error: outcomes[at].outcome->Err_0 },
        ) + skipped_of(outcomes.subrange(at + 1, outcomes.len() as int)),
{
    let before = outcomes.subrange(0, at);
    let after = outcomes.subrange(at + 1, outcomes.len() as int);
    assert(outcomes == before.push(outcomes[at]) + after);
    assert(outcomes.remove(at) == before + after);
    lemma_outcome_step(before, outcomes[at]);
    lemma_outcomes_concat(before.push(outcomes[at]), after);
    lemma_outcomes_concat(before, after);
}

impl BatchReport {
    /// The report of a batch of which no file was converted yet.
    pub fn new() -> (report: BatchReport)
        ensures
            report.converted@ == Seq::<ConversionResult>::empty(),
            report.skipped@ == Seq::<Skipped>::empty(),
    {
        BatchReport { converted: Vec::new(), skipped: Vec::new() }
    }

    /// Takes in how the conversion of the next file ended. A result is kept.
    /// A failure has the file put among the skipped ones, and the line to
    /// show for it is returned. Either way the batch goes on.
    pub fn record(&mut self, file: FileOutcome) -> (diagnostic: Option<String>)
        ensures
            match file.outcome {
                Ok(result) => {
                    &&& final(self).converted@ == old(self).converted@.push(result)
                    &&& final(self).skipped@ == old(self).skipped@
                    &&& diagnostic is None
                },
                Err(error) => {
                    &&& final(self).converted@ == old(self).converted@
                    &&& final(self).skipped@ == old(self).skipped@.push(
                        Skipped { input_path: file.input_path, error },
                    )
                    &&& diagnostic matches Some(line)
                    &&& line@ == skipping_text(display_name(file.input_path@))
                },
            },
    {
        let FileOutcome { input_path, outcome } = file;
        match outcome {
            Ok(result) => {
                self.converted.push(result);
                None
            },
            Err(error) => {
                let name = display_name_of(input_path.as_str());
                let line = skipping_line(name.as_str());
                self.skipped.push(Skipped { input_path, error });
                Some(line)
            },
        }
    }
}

/// The report of a whole batch, given how the conversion of each file ended,
/// and the lines to show for the files that were skipped. No failure of a
/// file keeps the files after it out of the report.
pub fn summarize(outcomes: Vec<FileOutcome>) -> (summary: (BatchReport, Vec<String>))
    ensures
        summary.0.converted@ == converted_of(outcomes@),
        summary.0.skipped@ == skipped_of(outcomes@),
        summary.1@.map_values(|line: String| line@) == diagnostics_of(outcomes@),
{
    let mut report = BatchReport::new();
    let mut lines: Vec<String> = Vec::new();
    let ghost all = outcomes@;
    proof {
        lemma_outcome_step(Seq::empty(), arbitrary());
        assert(all.subrange(0, 0) == Seq::<FileOutcome>::empty());
        assert(lines@.map_values(|line: String| line@) =~= diagnostics_of(Seq::empty()));
    }
    for file in iter: outcomes
        invariant
            iter.seq() == all,
            report.converted@ == converted_of(all.subrange(0, iter.index() as int)),
            report.skipped@ == skipped_of(all.subrange(0, iter.index() as int)),
            lines@.map_values(|line: String| line@) == diagnostics_of(
                all.subrange(0, iter.index() as int),
            ),
    {
        let ghost seen = all.subrange(0, iter.index() as int);
        let ghost shown = lines@.map_values(|line: String| line@);
        proof {
            assert(all.subrange(0, iter.index() + 1) == seen.push(file));
            lemma_outcome_step(seen, file);
        }
        match report.record(file) {
            Some(line) => {
                lines.push(line);
                assert(lines@.map_values(|line: String| line@) =~= shown.push(line@));
                assert(diagnostics_of(seen.push(file)) =~= diagnostics_of(seen).push(
                    skipping_text(display_name(file.input_path@)),
                ));
            },
            None => {},
        }
    }
    assert(all.subrange(0, all.len() as int) == all);
    (report, lines)
}

} // verus!
