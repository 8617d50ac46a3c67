//! What a conversion reports: the two sizes, what was saved, and the lines
//! shown for each file.
//!
//! Sizes are compared as they are. An encoded file may be larger than its
//! input, and then the saving is negative. The percentage of an empty input is
//! reported as 0.
use vstd::prelude::*;
use vstd::string::*;
use crate::decimal::{format_signed, signed_decimal};

verus! {

/// The sizes measured for one converted file, and where it was written.
#[derive(Debug)]
pub struct ConversionResult {
    pub output_path: String,
    pub original_size_bytes: u64,
    pub encoded_size_bytes: u64,
}

/// `a / b` rounded towards zero, for a positive `b`.
pub open spec fn truncated_quotient(a: int, b: int) -> int {
    if a >= 0 {
        a / b
    } else {
        -((-a) / b)
    }
}

/// Whole kilobytes saved by writing `encoded` bytes in place of `original`:
/// the difference over 1024, rounded towards zero.
pub open spec fn kb_saved(original: nat, encoded: nat) -> int {
    truncated_quotient(original - encoded, 1024)
}

/// The saving in whole percent of the input's size, rounded towards zero; 0
/// for an empty input.
pub open spec fn percent_saved(original: nat, encoded: nat) -> int {
    if original == 0 {
        0
    } else {
        truncated_quotient((original - encoded) * 100, original as int)
    }
}

/// The line that announces the conversion of the file shown as `name`.
pub open spec fn converting_text(name: Seq<char>) -> Seq<char> {
    "Converting "@ + name
}

/// The line that reports what the conversion saved.
pub open spec fn saved_text(original: nat, encoded: nat) -> Seq<char> {
    "Saved "@ + signed_decimal(kb_saved(original, encoded)) + " KB ("@ + signed_decimal(
        percent_saved(original, encoded),
    ) + "%)"@
}

/// The line that reports that the file shown as `name` was skipped.
pub open spec fn skipping_text(name: Seq<char>) -> Seq<char> {
    "Error processing file: "@ + name + " - Skipping..."@
}

/// Nothing is taken for granted about which size is the larger: the saving
/// has the sign of the difference, a file that did not shrink saves nothing,
/// and no file saves more than all of itself.
pub proof fn lemma_saving_follows_sizes(original: nat, encoded: nat)
    ensures
        encoded <= original ==> 0 <= kb_saved(original, encoded) <= original / 1024,
        encoded <= original ==> 0 <= percent_saved(original, encoded) <= 100,
        encoded >= original ==> kb_saved(original, encoded) <= 0,
        encoded >= original ==> percent_saved(original, encoded) <= 0,
        encoded == original ==> kb_saved(original, encoded) == 0 && percent_saved(
            original,
            encoded,
        ) == 0,
        original == 0 ==> percent_saved(original, encoded) == 0,
{
    let diff = original - encoded;
    if original > 0 {
        let whole = original as int;
        if diff >= 0 {
            assert(0 <= (diff * 100) / whole <= 100) by (nonlinear_arith)
                requires
                    0 <= diff <= whole,
                    whole > 0,
            ;
        } else {
            assert(((-diff) * 100) / whole >= 0) by (nonlinear_arith)
                requires
                    -diff >= 0,
                    whole > 0,
            ;
        }
    }
}

impl ConversionResult {
    /// Whole kilobytes saved; negative where the encoded file is the larger.
    pub fn saved_kb(&self) -> (kb: i64)
        ensures
            kb == kb_saved(self.original_size_bytes as nat, self.encoded_size_bytes as nat),
    {
        if self.original_size_bytes >= self.encoded_size_bytes {
            ((self.original_size_bytes - self.encoded_size_bytes) / 1024) as i64
        } else {
            -(((self.encoded_size_bytes - self.original_size_bytes) / 1024) as i64)
        }
    }

    /// The saving in whole percent of the input's size; negative where the
    /// encoded file is the larger, and 0 for an empty input.
    pub fn percentage_change(&self) -> (percent: i128)
        ensures
            percent == percent_saved(
                self.original_size_bytes as nat,
                self.encoded_size_bytes as nat,
            ),
    {
        if self.original_size_bytes == 0 {
            return 0;
        }
        let whole: u128 = self.original_size_bytes as u128;
        if self.original_size_bytes >= self.encoded_size_bytes {
            let diff: u128 = (self.original_size_bytes - self.encoded_size_bytes) as u128;
            assert((diff * 100) / (whole as int) <= diff * 100) by (nonlinear_arith)
                requires
                    whole >= 1,
                    diff >= 0,
            ;
            ((diff * 100) / whole) as i128
        } else {
            let diff: u128 = (self.encoded_size_bytes - self.original_size_bytes) as u128;
            assert((diff * 100) / (whole as int) <= diff * 100) by (nonlinear_arith)
                requires
                    whole >= 1,
                    diff >= 0,
            ;
            -(((diff * 100) / whole) as i128)
        }
    }

    /// The line that reports what this conversion saved:
    /// `Saved <kilobytes> KB (<percent>%)`.
    pub fn saved_line(&self) -> (line: String)
        ensures
            line@ == saved_text(self.original_size_bytes as nat, self.encoded_size_bytes as nat),
    {
        let kb = format_signed(self.saved_kb() as i128);
        let percent = format_signed(self.percentage_change());
        let mut line = String::from_str("Saved ");
        line.append(kb.as_str());
        line.append(" KB (");
        line.append(percent.as_str());
        line.append("%)");
        line
    }
}

/// The line shown before a file is encoded: `Converting <name>`.
pub fn converting_line(name: &str) -> (line: String)
    ensures
        line@ == converting_text(name@),
{
    let mut line = String::from_str("Converting ");
    line.append(name);
    line
}

/// The line shown for a file that a batch leaves out:
/// `Error processing file: <name> - Skipping...`.
pub fn skipping_line(name: &str) -> (line: String)
    ensures
        line@ == skipping_text(name@),
{
    let mut line = String::from_str("Error processing file: ");
    line.append(name);
    line.append(" - Skipping...");
    line
}

} // verus!
