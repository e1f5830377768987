//! The session record: the text that names the capture process of the
//! recording in progress.

use crate::text::{
    decimal, is_digit, lemma_decimal_reads_back, lemma_parse_decimal, parse_u32, read_u32,
    render_decimal, space_run, space_run_back, to_chars, trim, trim_bounds,
};
use vstd::prelude::*;

verus! {

/// What a session record holds.
#[derive(Clone, Copy, Debug, PartialEq, Eq, Structural)]
pub enum RecordContent {
    /// Nothing but white space.
    Blank,
    /// The identifier of the capture process.
    Pid(u32),
    /// Text that names no process.
    Garbage,
}

/// What the record text `text` holds: white space around it does not count.
pub open spec fn read_record(text: Seq<char>) -> RecordContent {
    let t = trim(text);
    if t.len() == 0 {
        RecordContent::Blank
    } else {
        match parse_u32(t) {
            Some(pid) => RecordContent::Pid(pid),
            None => RecordContent::Garbage,
        }
    }
}

/// Reads a session record.
pub fn parse_record(text: &str) -> (content: RecordContent)
    ensures
        content == read_record(text@),
{
    let v = to_chars(text);
    let (a, b) = trim_bounds(&v);
    if a == b {
        return RecordContent::Blank;
    }
    match read_u32(&v, a, b) {
        Some(pid) => RecordContent::Pid(pid),
        None => RecordContent::Garbage,
    }
}

/// Writes the session record of the capture process `pid`.
pub fn render_record(pid: u32) -> (text: String)
    ensures
        text@ == decimal(pid as nat),
{
    render_decimal(pid as u128)
}

/// A numeral has no white space at either end.
pub proof fn lemma_decimal_is_trimmed(n: nat)
    ensures
        trim(decimal(n)) == decimal(n),
{
    lemma_decimal_reads_back(n);
    let s = decimal(n);
    assert(is_digit(s[0]));
    assert(is_digit(s[s.len() - 1]));
    assert(space_run(s, 0) == 0);
    assert(space_run_back(s, s.len() as int) == s.len());
    assert(s.subrange(0, s.len() as int) =~= s);
}

/// Reading the record that was written for a process names that process.
pub proof fn lemma_record_round_trip(pid: u32)
    ensures
        read_record(decimal(pid as nat)) == RecordContent::Pid(pid),
{
    lemma_decimal_is_trimmed(pid as nat);
    lemma_decimal_reads_back(pid as nat);
    lemma_parse_decimal(pid);
}

} // verus!
