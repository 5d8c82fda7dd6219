//! Scanning an inclusive port range, in ascending order, for the first port
//! on which a TCP listener can be opened.
//!
//! The bind attempt itself is I/O and lives with the caller; this module
//! holds the scan state machine and its laws. The caller asks
//! [`PortScan::pending_port`] which port to probe, binds (and immediately
//! releases) a listener on it, and reports the outcome through
//! [`PortScan::record_probe`], which returns the finished [`PortResult`]
//! once the scan is decided. A scan whose range was empty from the start is
//! closed with [`PortScan::exhausted_result`] without any probe.
//!
//! The spec function [`first_free_port`] models a whole scan against a fixed
//! availability map; a driver that probes the pending port and reports the
//! true outcome maintains "every port below the pending one was occupied",
//! and [`lemma_prefix_occupied`] then ties each intermediate state back to
//! the model.

use vstd::prelude::*;

verus! {

/// The outcome record of one scan over a port range.
pub struct PortResult {
    /// The selected port on success; the range's start on failure.
    pub port: u16,
    /// Whether a bindable port was found in range.
    pub success: bool,
    /// Explanatory text, present exactly when the scan failed.
    pub error: Option<String>,
}

impl PortResult {
    /// A successful result carries no error text; a failed one always does.
    pub open spec fn wf(self) -> bool {
        self.success <==> self.error is None
    }
}

/// The message carried by every failed scan.
pub open spec fn no_free_port_message() -> Seq<char> {
    "No free port found in range"@
}

/// The result of scanning `[lo, hi]` in ascending order against a fixed
/// availability map: the lowest `p` in range with `free[p]`, if any.
pub open spec fn first_free_port(lo: int, hi: int, free: Map<int, bool>) -> Option<int>
    decreases hi + 1 - lo,
{
    if lo > hi {
        None
    } else if free[lo] {
        Some(lo)
    } else {
        first_free_port(lo + 1, hi, free)
    }
}

/// Law: when the range is non-empty and some port in it is free, the scan
/// yields a port of the range that is free — the lowest such port.
pub proof fn lemma_finds_first_free(lo: int, hi: int, free: Map<int, bool>)
    requires
        lo <= hi,
        exists|p: int| lo <= p <= hi && free[p],
    ensures
        ({
            let r = first_free_port(lo, hi, free);
            r matches Some(found)
                && lo <= found <= hi
                && free[found]
                && (forall|q: int| lo <= q < found ==> !free[q])
        }),
    decreases hi + 1 - lo,
{
    if !free[lo] {
        let p = choose|p: int| lo <= p <= hi && free[p];
        assert(lo + 1 <= p <= hi && free[p]);
        lemma_finds_first_free(lo + 1, hi, free);
    }
}

/// Law: when every port of the range is occupied, the scan yields nothing,
/// so the finder reports failure rather than a fabricated default.
pub proof fn lemma_all_occupied_none(lo: int, hi: int, free: Map<int, bool>)
    requires
        forall|p: int| lo <= p <= hi ==> !free[p],
    ensures
        first_free_port(lo, hi, free) is None,
    decreases hi + 1 - lo,
{
    if lo <= hi {
        assert(!free[lo]);
        lemma_all_occupied_none(lo + 1, hi, free);
    }
}

/// Law: an empty range (start above end) yields nothing, whatever the
/// availability map says — no probe can even be asked for.
pub proof fn lemma_empty_range_none(lo: int, hi: int, free: Map<int, bool>)
    requires
        lo > hi,
    ensures
        first_free_port(lo, hi, free) is None,
{
}

/// A scan that has found every port in `[lo, cur)` occupied decides the same
/// outcome as one started at `cur`: the bridge between a driver's
/// intermediate state and the whole-scan model.
pub proof fn lemma_prefix_occupied(lo: int, hi: int, cur: int, free: Map<int, bool>)
    requires
        lo <= cur <= hi + 1,
        forall|q: int| lo <= q < cur ==> !free[q],
    ensures
        first_free_port(lo, hi, free) == first_free_port(cur, hi, free),
    decreases cur - lo,
{
    if lo < cur {
        assert(!free[lo]);
        lemma_prefix_occupied(lo + 1, hi, cur, free);
    }
}

/// The state of one scan: ports below `next_port` were probed and found
/// occupied; `next_port` is the next to probe, one past `end_port` once the
/// range is exhausted.
pub struct PortScan {
    /// First port of the inclusive range.
    pub start_port: u16,
    /// Last port of the inclusive range.
    pub end_port: u16,
    /// The next port to probe; held one wider than `u16` so that a scan
    /// ending at 65535 can still step past its range.
    pub next_port: u32,
}

impl PortScan {
    /// The cursor never runs below the start, past one beyond the end of a
    /// non-empty range, or anywhere at all on an empty one.
    pub open spec fn wf(self) -> bool {
        &&& self.start_port as int <= self.next_port as int
        &&& (self.start_port <= self.end_port ==> self.next_port as int <= self.end_port as int
            + 1)
        &&& (self.start_port > self.end_port ==> self.next_port == self.start_port as u32)
    }

    /// Begin a scan of the inclusive range `[start_port, end_port]`.
    pub fn new(start_port: u16, end_port: u16) -> (s: Self)
        ensures
            s.wf(),
            s.start_port == start_port,
            s.end_port == end_port,
            s.next_port == start_port as u32,
    {
        PortScan { start_port, end_port, next_port: start_port as u32 }
    }

    /// The port the caller should probe now; `None` once the scan is
    /// exhausted, and immediately on an empty range.
    pub fn pending_port(&self) -> (p: Option<u16>)
        requires
            self.wf(),
        ensures
            p == (if self.next_port as int <= self.end_port as int {
                Some(self.next_port as u16)
            } else {
                None::<u16>
            }),
    {
        if self.next_port <= self.end_port as u32 {
            Some(self.next_port as u16)
        } else {
            None
        }
    }

    /// Report the outcome of probing the pending port. A free port finishes
    /// the scan at once with a success record for exactly that port; an
    /// occupied one advances the cursor, finishing with the failure record
    /// when the range has just run out.
    pub fn record_probe(&mut self, free: bool) -> (r: Option<PortResult>)
        requires
            old(self).wf(),
            old(self).next_port as int <= old(self).end_port as int,
        ensures
            final(self).wf(),
            final(self).start_port == old(self).start_port,
            final(self).end_port == old(self).end_port,
            free ==> final(self).next_port == old(self).next_port,
            free ==> (r matches Some(res) && res.wf() && res.success && res.error is None
                && res.port as int == old(self).next_port as int),
            !free ==> final(self).next_port == old(self).next_port + 1,
            (!free && (old(self).next_port as int) < (old(self).end_port as int)) ==> r is None,
            (!free && old(self).next_port as int == old(self).end_port as int) ==> (
            r matches Some(res) && res.wf() && !res.success && res.port == old(self).start_port
                && (res.error matches Some(m) && m@ == no_free_port_message())),
    {
        if free {
            Some(PortResult { port: self.next_port as u16, success: true, error: None })
        } else {
            self.next_port = self.next_port + 1;
            if self.next_port > self.end_port as u32 {
                Some(failure_result(self.start_port))
            } else {
                None
            }
        }
    }

    /// Law: a scan state whose driver probed every port below the pending
    /// one and found it occupied, and whose pending port probes free, has
    /// decided exactly the model's outcome: the pending port is the lowest
    /// free port of the whole range.
    pub proof fn lemma_success_matches_model(self, free: Map<int, bool>)
        requires
            self.wf(),
            self.next_port as int <= self.end_port as int,
            forall|q: int| self.start_port <= q < self.next_port ==> !free[q],
            free[self.next_port as int],
        ensures
            first_free_port(self.start_port as int, self.end_port as int, free) == Some(
                self.next_port as int,
            ),
    {
        lemma_prefix_occupied(
            self.start_port as int,
            self.end_port as int,
            self.next_port as int,
            free,
        );
    }

    /// Law: a scan state that has run out of ports, its driver having found
    /// every probed port occupied, has decided exactly the model's outcome:
    /// no port of the range is free.
    pub proof fn lemma_exhausted_matches_model(self, free: Map<int, bool>)
        requires
            self.wf(),
            self.next_port as int > self.end_port as int,
            forall|q: int| self.start_port <= q < self.next_port ==> !free[q],
        ensures
            first_free_port(self.start_port as int, self.end_port as int, free) is None,
    {
        if self.start_port <= self.end_port {
            lemma_prefix_occupied(
                self.start_port as int,
                self.end_port as int,
                self.next_port as int,
                free,
            );
        }
    }

    /// The failure record for a scan that ran out of ports without finding a
    /// free one, or whose range was empty from the start.
    pub fn exhausted_result(&self) -> (r: PortResult)
        requires
            self.wf(),
            self.next_port as int > self.end_port as int,
        ensures
            r.wf(),
            !r.success,
            r.port == self.start_port,
            r.error matches Some(m) && m@ == no_free_port_message(),
    {
        failure_result(self.start_port)
    }
}

/// Whether `c` is a decimal digit.
pub open spec fn is_dec_digit(c: char) -> bool {
    '0' <= c && c <= '9'
}

/// The numeric value of the decimal digit `c`.
pub open spec fn dec_digit_val(c: char) -> int {
    c as int - '0' as int
}

/// Whether every character of `s` is a decimal digit.
pub open spec fn all_dec_digits(s: Seq<char>) -> bool {
    forall|i: int| 0 <= i < s.len() ==> is_dec_digit(s[i])
}

/// The value of `s` read as a decimal numeral (most significant digit
/// first); meaningful when `all_dec_digits(s)` holds.
pub open spec fn dec_value(s: Seq<char>) -> int
    decreases s.len(),
{
    if s.len() == 0 {
        0
    } else {
        dec_value(s.drop_last()) * 10 + dec_digit_val(s.last())
    }
}

/// What parsing `s` as a port number yields: an optional leading `+`, then
/// at least one decimal digit, valued at most 65535 — the inputs `u16`
/// parsing accepts. Anything else is unparsable and falls back to a default.
pub open spec fn parsed_port(s: Seq<char>) -> Option<u16> {
    let digits = if s.len() > 0 && s[0] == '+' {
        s.skip(1)
    } else {
        s
    };
    if digits.len() > 0 && all_dec_digits(digits) && dec_value(digits) <= 65535 {
        Some(dec_value(digits) as u16)
    } else {
        None
    }
}

proof fn lemma_dec_value_nonneg(s: Seq<char>)
    requires
        all_dec_digits(s),
    ensures
        dec_value(s) >= 0,
    decreases s.len(),
{
    if s.len() > 0 {
        assert(all_dec_digits(s.drop_last()));
        lemma_dec_value_nonneg(s.drop_last());
    }
}

/// A decimal numeral is at least as large as any of its prefixes: once a
/// prefix has overrun the `u16` range, the whole numeral has too.
proof fn lemma_dec_value_prefix_le(s: Seq<char>, k: int)
    requires
        all_dec_digits(s),
        0 <= k <= s.len(),
    ensures
        dec_value(s.take(k)) <= dec_value(s),
    decreases s.len() - k,
{
    if k < s.len() {
        assert(s.take(k + 1).drop_last() =~= s.take(k));
        assert(all_dec_digits(s.take(k)));
        lemma_dec_value_nonneg(s.take(k));
        assert(dec_value(s.take(k + 1)) == dec_value(s.take(k)) * 10 + dec_digit_val(
            s.take(k + 1).last(),
        ));
        lemma_dec_value_prefix_le(s, k + 1);
    } else {
        assert(s.take(k) =~= s);
    }
}

/// Parse `s` as a decimal port number; `None` on anything `u16` parsing
/// would reject (empty, a non-digit, a value past 65535).
pub fn parse_port(s: &str) -> (r: Option<u16>)
    ensures
        r == parsed_port(s@),
{
    let n = s.unicode_len();
    let start: usize = if n > 0 && s.get_char(0) == '+' {
        1
    } else {
        0
    };
    let ghost digits = if start == 1 {
        s@.skip(1)
    } else {
        s@
    };
    if n == start {
        return None;
    }
    let mut acc: u32 = 0;
    let mut i: usize = start;
    while i < n
        invariant
            start <= i <= n,
            n == s@.len(),
            (start == 1) == (s@.len() > 0 && s@[0] == '+'),
            digits == (if start == 1 {
                s@.skip(1)
            } else {
                s@
            }),
            digits.len() == n - start,
            forall|j: int| 0 <= j < digits.len() ==> digits[j] == s@[j + start],
            all_dec_digits(digits.take(i - start)),
            acc == dec_value(digits.take(i - start)),
            acc <= 65535,
        decreases n - i,
    {
        let c = s.get_char(i);
        if c < '0' || c > '9' {
            assert(!is_dec_digit(digits[i - start]));
            return None;
        }
        let d: u32 = (c as u32) - ('0' as u32);
        acc = acc * 10 + d;
        proof {
            assert(digits.take(i + 1 - start).drop_last() =~= digits.take(i - start));
        }
        i = i + 1;
        if acc > 65535 {
            proof {
                if all_dec_digits(digits) {
                    lemma_dec_value_prefix_le(digits, i - start);
                }
            }
            return None;
        }
    }
    proof {
        assert(digits.take(i - start) =~= digits);
    }
    Some(acc as u16)
}

/// The port an optional command-line argument selects: its parsed value, or
/// `default` when the argument is absent or unparsable.
pub fn port_or_default(arg: Option<&String>, default: u16) -> (p: u16)
    ensures
        p == (match arg {
            Some(s) => match parsed_port(s@) {
                Some(v) => v,
                None => default,
            },
            None => default,
        }),
{
    match arg {
        Some(s) => match parse_port(s.as_str()) {
            Some(v) => v,
            None => default,
        },
        None => default,
    }
}

/// The record every failed scan reports: the range's start port (not a
/// meaningful port) and the explanatory message.
fn failure_result(start_port: u16) -> (r: PortResult)
    ensures
        r.wf(),
        !r.success,
        r.port == start_port,
        r.error matches Some(m) && m@ == no_free_port_message(),
{
    PortResult { port: start_port, success: false, error: Some(
        "No free port found in range".to_owned(),
    ) }
}

} // verus!
