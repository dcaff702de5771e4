//! Report generator: the failure-cause histogram over the attempt log and
//! the terminal session summary.

use vstd::prelude::*;

use crate::attempts::{AttemptLog, AttemptOutcome, AttemptRecordModel};

verus! {

/// `pat` occurs somewhere in `text` as a contiguous run.
pub open spec fn contains_token(text: Seq<char>, pat: Seq<char>) -> bool {
    exists|i: int|
        0 <= i <= text.len() - pat.len() && #[trigger] text.subrange(i, i + pat.len()) == pat
}

/// Substring search: does `pat` occur contiguously in `text`?
pub fn contains_substr(text: &str, pat: &str) -> (r: bool)
    ensures
        r == contains_token(text@, pat@),
{
    let n = text.unicode_len();
    let m = pat.unicode_len();
    if m > n {
        return false;
    }
    if m == 0 {
        proof {
            assert(text@.subrange(0, 0 + pat@.len() as int) =~= pat@);
        }
        return true;
    }
    let mut i: usize = 0;
    while i <= n - m
        invariant
            n == text@.len(),
            m == pat@.len(),
            1 <= m <= n,
            0 <= i <= n - m + 1,
            forall|k: int|
                0 <= k < i ==> #[trigger] text@.subrange(k, k + m as int) != pat@,
        decreases n - m + 1 - i,
    {
        let mut j: usize = 0;
        let mut matched = true;
        while j < m
            invariant
                n == text@.len(),
                m == pat@.len(),
                m <= n,
                0 <= i <= n - m,
                0 <= j <= m,
                matched ==> forall|l: int| 0 <= l < j ==> text@[i + l] == pat@[l],
                !matched ==> text@.subrange(i as int, i + m as int) != pat@,
            decreases m - j,
        {
            if text.get_char(i + j) != pat.get_char(j) {
                proof {
                    assert(text@.subrange(i as int, i + m as int)[j as int] != pat@[j as int]);
                }
                matched = false;
                j = m;
            } else {
                j = j + 1;
            }
        }
        if matched {
            proof {
                assert(text@.subrange(i as int, i + m as int) =~= pat@);
            }
            return true;
        }
        i = i + 1;
    }
    proof {
        assert forall|k: int| 0 <= k <= n - m implies #[trigger] text@.subrange(k, k + m as int)
            != pat@ by {
            assert(k < i);
        }
    }
    false
}

/// The record is a failed attempt whose free-form error text holds the
/// given token.
pub open spec fn error_with_token(r: AttemptRecordModel, tok: Seq<char>) -> bool {
    r.outcome is Error && (r.error_detail matches Some(d) && contains_token(d, tok))
}

/// An `Error`-outcome record lands in exactly one bucket: `Timeout` first,
/// then `ConnectionRefused`, then everything else.
pub open spec fn in_timeout_bucket(r: AttemptRecordModel) -> bool {
    error_with_token(r, "Timeout"@)
}

pub open spec fn in_refused_bucket(r: AttemptRecordModel) -> bool {
    r.outcome is Error && !in_timeout_bucket(r) && error_with_token(r, "ConnectionRefused"@)
}

pub open spec fn in_other_bucket(r: AttemptRecordModel) -> bool {
    r.outcome is Error && !in_timeout_bucket(r) && !error_with_token(r, "ConnectionRefused"@)
}

pub open spec fn count_timeout_bucket(s: Seq<AttemptRecordModel>) -> int
    decreases s.len(),
{
    if s.len() == 0 {
        0
    } else {
        count_timeout_bucket(s.drop_last()) + (if in_timeout_bucket(s.last()) {
            1int
        } else {
            0int
        })
    }
}

pub open spec fn count_refused_bucket(s: Seq<AttemptRecordModel>) -> int
    decreases s.len(),
{
    if s.len() == 0 {
        0
    } else {
        count_refused_bucket(s.drop_last()) + (if in_refused_bucket(s.last()) {
            1int
        } else {
            0int
        })
    }
}

pub open spec fn count_other_bucket(s: Seq<AttemptRecordModel>) -> int
    decreases s.len(),
{
    if s.len() == 0 {
        0
    } else {
        count_other_bucket(s.drop_last()) + (if in_other_bucket(s.last()) {
            1int
        } else {
            0int
        })
    }
}

/// How many attempts in the log failed with outcome `Error`; `Success`,
/// `Timeout` and `Refused` attempts are excluded from the histogram
/// entirely.
pub open spec fn count_error_records(s: Seq<AttemptRecordModel>) -> int
    decreases s.len(),
{
    if s.len() == 0 {
        0
    } else {
        count_error_records(s.drop_last()) + (if s.last().outcome is Error {
            1int
        } else {
            0int
        })
    }
}

/// Law: the histogram's three buckets partition the `Error`-outcome
/// records — their counts sum exactly to the number of `Error` attempts in
/// the log.
pub proof fn lemma_histogram_partition(s: Seq<AttemptRecordModel>)
    ensures
        count_timeout_bucket(s) + count_refused_bucket(s) + count_other_bucket(s)
            == count_error_records(s),
    decreases s.len(),
{
    if s.len() > 0 {
        lemma_histogram_partition(s.drop_last());
    }
}

/// Bucket counts never exceed the log's length.
pub proof fn lemma_bucket_counts_bounded(s: Seq<AttemptRecordModel>)
    ensures
        0 <= count_timeout_bucket(s) <= s.len(),
        0 <= count_refused_bucket(s) <= s.len(),
        0 <= count_other_bucket(s) <= s.len(),
        0 <= count_error_records(s) <= s.len(),
    decreases s.len(),
{
    if s.len() > 0 {
        lemma_bucket_counts_bounded(s.drop_last());
    }
}

/// Failure-cause histogram over the attempt log's `Error` records, found by
/// substring-matching their free-form error text.
#[derive(Clone, Copy, PartialEq, Eq, Structural, Debug)]
pub struct FailureHistogram {
    pub timeout_errors: usize,
    pub refused_errors: usize,
    pub other_errors: usize,
}

/// Scan the attempt log and bucket every `Error`-outcome record by its
/// error text: records mentioning a timeout, records mentioning a refused
/// connection, and the rest.
pub fn compute_histogram(log: &AttemptLog) -> (h: FailureHistogram)
    ensures
        h.timeout_errors == count_timeout_bucket(log@),
        h.refused_errors == count_refused_bucket(log@),
        h.other_errors == count_other_bucket(log@),
{
    let records = log.records();
    let n = records.len();
    let mut timeout_errors: usize = 0;
    let mut refused_errors: usize = 0;
    let mut other_errors: usize = 0;
    let mut i: usize = 0;
    while i < n
        invariant
            n == records@.len(),
            records@.map_values(|rec: crate::attempts::AttemptRecord| rec@) == log@,
            0 <= i <= n,
            timeout_errors == count_timeout_bucket(log@.take(i as int)),
            refused_errors == count_refused_bucket(log@.take(i as int)),
            other_errors == count_other_bucket(log@.take(i as int)),
            timeout_errors <= i && refused_errors <= i && other_errors <= i,
        decreases n - i,
    {
        proof {
            assert(log@.take(i + 1).drop_last() =~= log@.take(i as int));
            assert(log@.take(i + 1).last() == records@[i as int]@);
        }
        let is_error = match records[i].outcome {
            AttemptOutcome::Error => true,
            _ => false,
        };
        if is_error {
            let has_timeout = match &records[i].error_detail {
                Some(d) => contains_substr(d.as_str(), "Timeout"),
                None => false,
            };
            if has_timeout {
                timeout_errors = timeout_errors + 1;
            } else {
                let has_refused = match &records[i].error_detail {
                    Some(d) => contains_substr(d.as_str(), "ConnectionRefused"),
                    None => false,
                };
                if has_refused {
                    refused_errors = refused_errors + 1;
                } else {
                    other_errors = other_errors + 1;
                }
            }
        }
        i = i + 1;
    }
    proof {
        assert(log@.take(n as int) =~= log@);
    }
    FailureHistogram { timeout_errors, refused_errors, other_errors }
}

/// The decimal digit for one value below ten.
pub open spec fn spec_digit(d: int) -> char {
    if d == 0 {
        '0'
    } else if d == 1 {
        '1'
    } else if d == 2 {
        '2'
    } else if d == 3 {
        '3'
    } else if d == 4 {
        '4'
    } else if d == 5 {
        '5'
    } else if d == 6 {
        '6'
    } else if d == 7 {
        '7'
    } else if d == 8 {
        '8'
    } else {
        '9'
    }
}

/// The usual decimal rendering of a non-negative integer, no leading zeros.
pub open spec fn spec_decimal(n: int) -> Seq<char>
    decreases n,
{
    if n < 10 {
        seq![spec_digit(n)]
    } else {
        spec_decimal(n / 10).push(spec_digit(n % 10))
    }
}

/// One decimal digit as text.
fn digit_str(d: u64) -> (s: &'static str)
    requires
        d < 10,
    ensures
        s@ == seq![spec_digit(d as int)],
{
    proof {
        reveal_strlit("0");
        reveal_strlit("1");
        reveal_strlit("2");
        reveal_strlit("3");
        reveal_strlit("4");
        reveal_strlit("5");
        reveal_strlit("6");
        reveal_strlit("7");
        reveal_strlit("8");
        reveal_strlit("9");
    }
    let s = match d {
        0 => "0",
        1 => "1",
        2 => "2",
        3 => "3",
        4 => "4",
        5 => "5",
        6 => "6",
        7 => "7",
        8 => "8",
        _ => "9",
    };
    proof {
        assert(s@ =~= seq![spec_digit(d as int)]);
    }
    s
}

/// Render a number in decimal.
pub fn u64_to_string(n: u64) -> (s: String)
    ensures
        s@ == spec_decimal(n as int),
    decreases n,
{
    if n < 10 {
        String::from_str(digit_str(n))
    } else {
        let prefix = u64_to_string(n / 10);
        let s = prefix.concat(digit_str(n % 10));
        proof {
            assert(s@ =~= spec_decimal(n as int));
        }
        s
    }
}

/// The attempt outcome's name in reports.
pub open spec fn spec_outcome_name(o: AttemptOutcome) -> Seq<char> {
    match o {
        AttemptOutcome::Success => "success"@,
        AttemptOutcome::Timeout => "timeout"@,
        AttemptOutcome::Refused => "refused"@,
        AttemptOutcome::Error => "error"@,
    }
}

fn outcome_name(o: AttemptOutcome) -> (s: &'static str)
    ensures
        s@ == spec_outcome_name(o),
{
    match o {
        AttemptOutcome::Success => "success",
        AttemptOutcome::Timeout => "timeout",
        AttemptOutcome::Refused => "refused",
        AttemptOutcome::Error => "error",
    }
}

/// One attempt log line in the report file.
pub open spec fn spec_attempt_line(r: AttemptRecordModel) -> Seq<char> {
    "  Peer: "@ + (match r.peer_id {
        Some(p) => p,
        None => "unknown"@,
    }) + " | Time: "@ + spec_decimal(r.timestamp as int) + " | Result: "@ + spec_outcome_name(
        r.outcome,
    ) + " | Error: "@ + (match r.error_detail {
        Some(d) => d,
        None => "None"@,
    }) + "\n"@
}

/// The attempt log rendered line by line, in order.
pub open spec fn spec_attempt_lines(s: Seq<AttemptRecordModel>) -> Seq<char>
    decreases s.len(),
{
    if s.len() == 0 {
        Seq::empty()
    } else {
        spec_attempt_lines(s.drop_last()) + spec_attempt_line(s.last())
    }
}

/// The report file's whole text: pass/fail, duration, attempt count against
/// the bound, the full attempt log, and the failure-cause histogram.
pub open spec fn spec_report_text(
    passed: bool,
    duration_secs: u64,
    attempts_made: u32,
    max_attempts: u32,
    log: Seq<AttemptRecordModel>,
) -> Seq<char> {
    "REACHABILITY TEST REPORT\n========================\nTest Result: "@ + (if passed {
        "PASSED"@
    } else {
        "FAILED"@
    }) + "\nTest Duration: "@ + spec_decimal(duration_secs as int) + " seconds\nConnection Attempts: "@
        + spec_decimal(attempts_made as int) + "/"@ + spec_decimal(max_attempts as int)
        + "\n\nConnection Attempts Details:\n"@ + spec_attempt_lines(log)
        + "\nFailure Statistics:\n- Timeout Errors: "@ + spec_decimal(count_timeout_bucket(log))
        + "\n- Connection Refused: "@ + spec_decimal(count_refused_bucket(log))
        + "\n- Other Errors: "@ + spec_decimal(count_other_bucket(log)) + "\n"@
}

/// Render one attempt record as its report line.
fn render_attempt_line(r: &crate::attempts::AttemptRecord) -> (s: String)
    ensures
        s@ == spec_attempt_line(r@),
{
    let mut s = String::from_str("  Peer: ");
    match &r.peer_id {
        Some(p) => s.append(p.as_str()),
        None => s.append("unknown"),
    }
    s.append(" | Time: ");
    let ts = u64_to_string(r.timestamp);
    s.append(ts.as_str());
    s.append(" | Result: ");
    s.append(outcome_name(r.outcome));
    s.append(" | Error: ");
    match &r.error_detail {
        Some(d) => s.append(d.as_str()),
        None => s.append("None"),
    }
    s.append("\n");
    proof {
        assert(s@ =~= spec_attempt_line(r@));
    }
    s
}

/// Render the whole report file text from the session's outcome and the
/// attempt log.
pub fn render_report(
    passed: bool,
    duration_secs: u64,
    attempts_made: u32,
    max_attempts: u32,
    log: &AttemptLog,
) -> (s: String)
    ensures
        s@ == spec_report_text(passed, duration_secs, attempts_made, max_attempts, log@),
{
    let mut s = String::from_str("REACHABILITY TEST REPORT\n========================\nTest Result: ");
    if passed {
        s.append("PASSED");
    } else {
        s.append("FAILED");
    }
    s.append("\nTest Duration: ");
    let d = u64_to_string(duration_secs);
    s.append(d.as_str());
    s.append(" seconds\nConnection Attempts: ");
    let a = u64_to_string(attempts_made as u64);
    s.append(a.as_str());
    s.append("/");
    let m = u64_to_string(max_attempts as u64);
    s.append(m.as_str());
    s.append("\n\nConnection Attempts Details:\n");
    let records = log.records();
    let n = records.len();
    let mut i: usize = 0;
    let ghost header = s@;
    while i < n
        invariant
            n == records@.len(),
            records@.map_values(|rec: crate::attempts::AttemptRecord| rec@) == log@,
            0 <= i <= n,
            s@ == header + spec_attempt_lines(log@.take(i as int)),
        decreases n - i,
    {
        proof {
            assert(log@.take(i + 1).drop_last() =~= log@.take(i as int));
            assert(log@.take(i + 1).last() == records@[i as int]@);
        }
        let line = render_attempt_line(&records[i]);
        s.append(line.as_str());
        i = i + 1;
    }
    proof {
        assert(log@.take(n as int) =~= log@);
    }
    let h = compute_histogram(log);
    proof {
        lemma_bucket_counts_bounded(log@);
    }
    s.append("\nFailure Statistics:\n- Timeout Errors: ");
    let t = u64_to_string(h.timeout_errors as u64);
    s.append(t.as_str());
    s.append("\n- Connection Refused: ");
    let r = u64_to_string(h.refused_errors as u64);
    s.append(r.as_str());
    s.append("\n- Other Errors: ");
    let o = u64_to_string(h.other_errors as u64);
    s.append(o.as_str());
    s.append("\n");
    proof {
        assert(s@ =~= spec_report_text(
            passed,
            duration_secs,
            attempts_made,
            max_attempts,
            log@,
        ));
    }
    s
}

/// Terminal summary of one session, for the console and the report file.
pub struct SessionReport {
    pub passed: bool,
    pub duration_secs: u64,
    pub attempts_made: u32,
    pub max_attempts: u32,
    pub histogram: FailureHistogram,
}

/// Assemble the terminal summary from the session's outcome and the attempt
/// log.
pub fn build_report(
    success: bool,
    start_time: u64,
    now: u64,
    attempts_made: u32,
    max_attempts: u32,
    log: &AttemptLog,
) -> (r: SessionReport)
    requires
        now >= start_time,
    ensures
        r.passed == success,
        r.duration_secs == now - start_time,
        r.attempts_made == attempts_made,
        r.max_attempts == max_attempts,
        r.histogram.timeout_errors == count_timeout_bucket(log@),
        r.histogram.refused_errors == count_refused_bucket(log@),
        r.histogram.other_errors == count_other_bucket(log@),
{
    SessionReport {
        passed: success,
        duration_secs: now - start_time,
        attempts_made: attempts_made,
        max_attempts: max_attempts,
        histogram: compute_histogram(log),
    }
}

} // verus!
