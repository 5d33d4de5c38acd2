//! The verdict on one measurement, and the lines that report it.

use crate::decimal::{append_decimal, decimal_digits};
use vstd::prelude::*;
use vstd::string::*;

verus! {

/// How long the timed routine is made to last, in milliseconds.
pub const ROUTINE_DELAY_MS: u64 = 10;

/// The threshold that the command-line program probes with, in milliseconds.
pub const DEFAULT_THRESHOLD_MS: u128 = 5000;

/// A measurement is flagged when it lies strictly above the threshold.
pub open spec fn flagged(elapsed_ms: nat, threshold_ms: nat) -> bool {
    elapsed_ms > threshold_ms
}

/// The warning about a routine that took `elapsed_ms`.
pub open spec fn warning_text(elapsed_ms: nat) -> Seq<char> {
    "Routine took too long to execute: "@ + decimal_digits(elapsed_ms)
        + " ms, possibly being debugged."@
}

/// The closing line for a verdict.
pub open spec fn verdict_text(detected: bool) -> Seq<char> {
    if detected {
        "Debugging detected!"@
    } else {
        "No debugging detected."@
    }
}

/// What the probe itself says of a measurement: the warning when it is
/// flagged, nothing otherwise.
pub open spec fn probe_lines(elapsed_ms: nat, threshold_ms: nat) -> Seq<Seq<char>> {
    if flagged(elapsed_ms, threshold_ms) {
        seq![warning_text(elapsed_ms)]
    } else {
        Seq::empty()
    }
}

/// Everything that is said of a measurement: the probe's lines, then the
/// closing line for its verdict.
pub open spec fn report_lines(elapsed_ms: nat, threshold_ms: nat) -> Seq<Seq<char>> {
    probe_lines(elapsed_ms, threshold_ms).push(
        verdict_text(flagged(elapsed_ms, threshold_ms)),
    )
}

/// The text of each line, in order.
pub open spec fn texts(lines: Seq<String>) -> Seq<Seq<char>> {
    lines.map_values(|line: String| line@)
}

/// Of a measurement that is no shorter than the routine it times: where the
/// routine by itself lasts longer than the threshold allows, the measurement
/// is flagged and warned about, whatever the clock added to it.
pub proof fn lemma_slow_routine_is_flagged(routine_ms: nat, elapsed_ms: nat, threshold_ms: nat)
    requires
        elapsed_ms >= routine_ms,
        routine_ms > threshold_ms,
    ensures
        flagged(elapsed_ms, threshold_ms),
        probe_lines(elapsed_ms, threshold_ms) == seq![warning_text(elapsed_ms)],
{
}

/// Builds the warning about a routine that took `elapsed_ms`.
pub fn warning(elapsed_ms: u128) -> (msg: String)
    ensures
        msg@ == warning_text(elapsed_ms as nat),
{
    let mut msg = String::from_str("Routine took too long to execute: ");
    append_decimal(&mut msg, elapsed_ms);
    msg.append(" ms, possibly being debugged.");
    msg
}

/// Judges a routine that took `elapsed_ms` against `threshold_ms`. A flagged
/// measurement adds the warning at the end of `out`; any other leaves `out`
/// as it was.
pub fn is_being_debugged(
    elapsed_ms: u128,
    threshold_ms: u128,
    out: &mut Vec<String>,
) -> (detected: bool)
    ensures
        detected == flagged(elapsed_ms as nat, threshold_ms as nat),
        texts(final(out)@) == texts(old(out)@) + probe_lines(
            elapsed_ms as nat,
            threshold_ms as nat,
        ),
        final(out)@.take(old(out)@.len() as int) == old(out)@,
{
    if elapsed_ms > threshold_ms {
        out.push(warning(elapsed_ms));
        assert(texts(out@) =~= texts(old(out)@) + seq![warning_text(elapsed_ms as nat)]);
        return true;
    }
    assert(texts(out@) =~= texts(old(out)@) + Seq::<Seq<char>>::empty());
    false
}

/// Builds the closing line for a verdict.
pub fn verdict_line(detected: bool) -> (line: String)
    ensures
        line@ == verdict_text(detected),
{
    if detected {
        String::from_str("Debugging detected!")
    } else {
        String::from_str("No debugging detected.")
    }
}

/// Reports on a routine that took `elapsed_ms`, probed with `threshold_ms`:
/// the lines to print, in order.
pub fn report(elapsed_ms: u128, threshold_ms: u128) -> (lines: Vec<String>)
    ensures
        texts(lines@) == report_lines(elapsed_ms as nat, threshold_ms as nat),
{
    let mut lines: Vec<String> = Vec::new();
    assert(texts(lines@) =~= Seq::<Seq<char>>::empty());
    let detected = is_being_debugged(elapsed_ms, threshold_ms, &mut lines);
    let ghost said = lines@;
    lines.push(verdict_line(detected));
    assert(texts(lines@) =~= texts(said).push(verdict_text(detected)));
    lines
}

} // verus!
