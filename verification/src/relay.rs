//! Relay supervisor: the parts of process supervision that are decisions
//! over plain values.
//!
//! The binary reads the identifier marker, probes the process table, and
//! hands the outcomes in; the parse of the marker and the liveness verdict
//! built from those facts are verified here, as is the exact configuration
//! text the relay is launched with.

use vstd::prelude::*;

use crate::resolver::SvcAction;

verus! {

/// The stop sequence for the relay: a service-manager stop, then a
/// forceful kill-by-name sweep. Safe when nothing is running.
pub fn stop_relay_plan() -> (p: Vec<(SvcAction, &'static str)>)
    ensures
        p@.len() == 2,
        p@[0].0 == SvcAction::Stop && p@[0].1@ == "tor"@,
        p@[1].0 == SvcAction::KillByName && p@[1].1@ == "tor"@,
{
    let mut p: Vec<(SvcAction, &'static str)> = Vec::new();
    p.push((SvcAction::Stop, "tor"));
    p.push((SvcAction::KillByName, "tor"));
    p
}

pub open spec fn is_space(b: u8) -> bool {
    b == 32 || b == 9 || b == 10 || b == 13
}

pub open spec fn is_digit(b: u8) -> bool {
    48 <= b && b <= 57
}

pub open spec fn trim_start(s: Seq<u8>) -> Seq<u8>
    decreases s.len(),
{
    if s.len() > 0 && is_space(s[0]) {
        trim_start(s.drop_first())
    } else {
        s
    }
}

pub open spec fn trim_end(s: Seq<u8>) -> Seq<u8>
    decreases s.len(),
{
    if s.len() > 0 && is_space(s.last()) {
        trim_end(s.drop_last())
    } else {
        s
    }
}

/// The marker's text shorn of surrounding whitespace.
pub open spec fn trimmed(s: Seq<u8>) -> Seq<u8> {
    trim_end(trim_start(s))
}

pub open spec fn all_digits(s: Seq<u8>) -> bool {
    forall|i: int| 0 <= i < s.len() ==> is_digit(#[trigger] s[i])
}

/// Value of a digit string, most significant digit first.
pub open spec fn digits_value(s: Seq<u8>) -> int
    decreases s.len(),
{
    if s.len() == 0 {
        0
    } else {
        digits_value(s.drop_last()) * 10 + (s.last() - 48)
    }
}

/// Meaning of the identifier parse: the marker's text, shorn of
/// surrounding whitespace, must be one or more digits whose value fits the
/// signed process-identifier range.
pub open spec fn parse_pid_spec(s: Seq<u8>) -> Option<u32> {
    let t = trimmed(s);
    if t.len() > 0 && all_digits(t) && digits_value(t) <= 0x7fffffff {
        Option::Some(digits_value(t) as u32)
    } else {
        Option::None
    }
}

proof fn lemma_trim_start_at(s: Seq<u8>, i: int)
    requires
        0 <= i <= s.len(),
        forall|j: int| 0 <= j < i ==> is_space(#[trigger] s[j]),
        i == s.len() || !is_space(s[i]),
    ensures
        trim_start(s) == s.skip(i),
    decreases i,
{
    if i == 0 {
        assert(s.skip(0) =~= s);
    } else {
        lemma_trim_start_at(s.drop_first(), i - 1);
        assert(s.drop_first().skip(i - 1) =~= s.skip(i));
    }
}

proof fn lemma_trim_end_at(s: Seq<u8>, k: int)
    requires
        0 <= k <= s.len(),
        forall|j: int| k <= j < s.len() ==> is_space(#[trigger] s[j]),
        k == 0 || !is_space(s[k - 1]),
    ensures
        trim_end(s) == s.take(k),
    decreases s.len() - k,
{
    if k == s.len() {
        assert(s.take(k) =~= s);
    } else {
        lemma_trim_end_at(s.drop_last(), k);
        assert(s.drop_last().take(k) =~= s.take(k));
    }
}

proof fn lemma_digits_nonneg(s: Seq<u8>)
    requires
        all_digits(s),
    ensures
        digits_value(s) >= 0,
    decreases s.len(),
{
    if s.len() > 0 {
        assert(all_digits(s.drop_last()));
        lemma_digits_nonneg(s.drop_last());
    }
}

/// With only digits ahead, a prefix's value never exceeds the whole's.
proof fn lemma_digits_prefix_le(t: Seq<u8>, j: int)
    requires
        all_digits(t),
        0 <= j <= t.len(),
    ensures
        digits_value(t.take(j)) <= digits_value(t),
    decreases t.len() - j,
{
    if j == t.len() {
        assert(t.take(j) =~= t);
    } else {
        assert(t.take(j + 1).drop_last() =~= t.take(j));
        assert(all_digits(t.take(j)));
        lemma_digits_nonneg(t.take(j));
        lemma_digits_prefix_le(t, j + 1);
    }
}

fn is_space_byte(b: u8) -> (r: bool)
    ensures
        r == is_space(b),
{
    b == 32 || b == 9 || b == 10 || b == 13
}

/// Parse the identifier marker's bytes. Returns the identifier exactly
/// when the text, shorn of surrounding whitespace, is one or more digits
/// whose value fits the signed process-identifier range.
pub fn parse_pid(bytes: &[u8]) -> (r: Option<u32>)
    ensures
        r == parse_pid_spec(bytes@),
{
    let n: usize = bytes.len();
    let mut start: usize = 0;
    while start < n && is_space_byte(bytes[start])
        invariant
            start <= n,
            n == bytes@.len(),
            forall|j: int| 0 <= j < start ==> is_space(#[trigger] bytes@[j]),
        decreases n - start,
    {
        start += 1;
    }
    let mut end: usize = n;
    while end > start && is_space_byte(bytes[end - 1])
        invariant
            start <= end <= n,
            n == bytes@.len(),
            forall|j: int| end <= j < n ==> is_space(#[trigger] bytes@[j]),
        decreases end,
    {
        end -= 1;
    }
    let ghost t = trimmed(bytes@);
    proof {
        lemma_trim_start_at(bytes@, start as int);
        lemma_trim_end_at(bytes@.skip(start as int), end - start);
        assert(bytes@.skip(start as int).take(end - start) =~= bytes@.subrange(
            start as int,
            end as int,
        ));
        assert(t == bytes@.subrange(start as int, end as int));
    }
    if start == end {
        return Option::None;
    }
    let mut acc: u64 = 0;
    let mut i: usize = start;
    while i < end
        invariant
            start <= i <= end <= n,
            n == bytes@.len(),
            t == trimmed(bytes@),
            t == bytes@.subrange(start as int, end as int),
            forall|j: int| start <= j < i ==> is_digit(#[trigger] bytes@[j]),
            acc == digits_value(bytes@.subrange(start as int, i as int)),
            acc <= 0x7fffffff,
        decreases end - i,
    {
        let b: u8 = bytes[i];
        if b < 48 || b > 57 {
            proof {
                assert(t[i - start] == bytes@[i as int]);
                assert(!all_digits(t));
            }
            return Option::None;
        }
        let d: u64 = (b - 48) as u64;
        let next: u64 = acc * 10 + d;
        proof {
            assert(bytes@.subrange(start as int, i + 1).drop_last() =~= bytes@.subrange(
                start as int,
                i as int,
            ));
            assert(bytes@.subrange(start as int, i + 1).last() == bytes@[i as int]);
        }
        if next > 0x7fffffff {
            proof {
                let j = i + 1 - start as int;
                assert(t.take(j) =~= bytes@.subrange(start as int, i + 1));
                assert(digits_value(t.take(j)) == next);
                if all_digits(t) {
                    lemma_digits_prefix_le(t, j);
                }
            }
            return Option::None;
        }
        acc = next;
        i += 1;
    }
    proof {
        assert(t =~= bytes@.subrange(start as int, end as int));
        assert(acc == digits_value(t));
    }
    Option::Some(acc as u32)
}

pub open spec fn bytes_of(v: Option<Vec<u8>>) -> Option<Seq<u8>> {
    match v {
        Option::Some(b) => Option::Some(b@),
        Option::None => Option::None,
    }
}

/// The liveness verdict from the three external facts: the marker's bytes
/// (absent when there is no identifier file), the answer of the
/// non-destructive signal sent to the parsed identifier (absent when that
/// probe could not be made), and whether a process of the expected name
/// stands in the process table. True exactly when either check succeeds:
/// the identifier parses and the signal probe answers alive, or the
/// process-table lookup by name finds one.
pub open spec fn liveness_spec(
    marker: Option<Seq<u8>>,
    signal_alive: Option<bool>,
    named_process_found: bool,
) -> bool {
    let identifier_alive = match marker {
        Option::Some(bytes) => parse_pid_spec(bytes) is Some && signal_alive
            == Option::Some(true),
        Option::None => false,
    };
    identifier_alive || named_process_found
}

/// Decide whether the relay is running. Never errs: whatever the probes
/// returned, the verdict is a plain boolean.
pub fn is_tor_running(
    marker: &Option<Vec<u8>>,
    signal_alive: Option<bool>,
    named_process_found: bool,
) -> (r: bool)
    ensures
        r == liveness_spec(bytes_of(*marker), signal_alive, named_process_found),
{
    let probe_alive: bool = match signal_alive {
        Option::Some(alive) => alive,
        Option::None => false,
    };
    let identifier_alive: bool = match marker {
        Option::Some(bytes) => parse_pid(bytes.as_slice()).is_some() && probe_alive,
        Option::None => false,
    };
    identifier_alive || named_process_found
}

/// Law: the verdict is false with no identifier file and no process of the
/// expected name; false on an identifier whose process the signal probe
/// reports dead, when none of the expected name runs; and true when either
/// check succeeds — a live identifier, or a process found by name, marker
/// or no marker.
pub proof fn lemma_liveness_cases(
    marker: Option<Seq<u8>>,
    bytes: Seq<u8>,
    signal_alive: Option<bool>,
)
    ensures
        !liveness_spec(Option::None, signal_alive, false),
        !liveness_spec(Option::Some(bytes), Option::Some(false), false),
        parse_pid_spec(bytes) is Some ==> liveness_spec(
            Option::Some(bytes),
            Option::Some(true),
            false,
        ),
        liveness_spec(marker, signal_alive, true),
{
}

/// What the detached background monitor does with one liveness
/// observation.
#[derive(Clone, Copy, PartialEq, Eq, Structural, Debug)]
pub enum MonitorAction {
    /// The relay lives: keep polling.
    KeepWatching,
    /// A death was observed: raise one critical alert, then end.
    AlertAndStop,
}

/// The monitor's step: its whole decision, from one liveness verdict to
/// the action the polling loop takes.
pub fn monitor_step(alive: bool) -> (a: MonitorAction)
    ensures
        a == (if alive {
            MonitorAction::KeepWatching
        } else {
            MonitorAction::AlertAndStop
        }),
{
    if alive {
        MonitorAction::KeepWatching
    } else {
        MonitorAction::AlertAndStop
    }
}

/// The exact configuration the relay is launched with: daemon mode, its
/// run-as identity, working directory, log sink, the three listener ports
/// and the virtual address network for automatic mapping.
pub open spec fn torrc_text() -> Seq<char> {
    "RunAsDaemon 1\nUser tor\nDataDirectory /tmp/hulios_tor_data\nLog notice file /tmp/tor_debug.log\nSOCKSPort 9050\nTransPort 9051\nDNSPort 9061\nVirtualAddrNetwork 10.66.0.0/255.255.0.0\nAutomapHostsOnResolve 1\n"@
}

/// The configuration as a value, for the write the binary performs.
pub fn torrc_content() -> (r: String)
    ensures
        r@ == torrc_text(),
{
    String::from_str(
        "RunAsDaemon 1\nUser tor\nDataDirectory /tmp/hulios_tor_data\nLog notice file /tmp/tor_debug.log\nSOCKSPort 9050\nTransPort 9051\nDNSPort 9061\nVirtualAddrNetwork 10.66.0.0/255.255.0.0\nAutomapHostsOnResolve 1\n",
    )
}

} // verus!
