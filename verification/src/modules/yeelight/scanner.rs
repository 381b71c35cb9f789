//! The discovery scanner: when a probe may leave, and what it says.
//!
//! The caller owns the socket and the clock. At every turn of its loop it
//! reads the clock and asks `poll`, which answers with the one thing to do:
//! send a probe and wait for a reply, wait, or stop. However long sending,
//! receiving and reading a reply take, two probes are never closer than the
//! interval of the scanner, because `poll` measures from the moment it let
//! the last probe go.

use vstd::prelude::*;

use crate::text::{decimal_text, push_decimal, push_word, word};

verus! {

/// The longest that a bulb may wait before it answers a probe, in seconds;
/// the scanner waits as long for a reply.
pub const DEFAULT_MX: u64 = 5;

/// Where probes are sent: an IPv4 address and a port.
#[derive(Debug, Clone, Copy, PartialEq, Eq)]
pub struct Endpoint {
    pub address: (u8, u8, u8, u8),
    pub port: u16,
}

/// The multicast group that bulbs listen on.
pub open spec fn discovery_group() -> Endpoint {
    Endpoint { address: (239, 255, 255, 250), port: 1982 }
}

/// The multicast group that bulbs listen on: `239.255.255.250:1982`.
pub fn multicast_group() -> (group: Endpoint)
    ensures
        group == discovery_group(),
{
    Endpoint { address: (239, 255, 255, 250), port: 1982 }
}

/// An endpoint as text: the four numbers of the address with dots between
/// them, a colon, and the port.
pub open spec fn endpoint_text(to: Endpoint) -> Seq<u8> {
    decimal_text(to.address.0 as nat) + word(".") + decimal_text(to.address.1 as nat) + word(".")
        + decimal_text(to.address.2 as nat) + word(".") + decimal_text(to.address.3 as nat) + word(
        ":",
    ) + decimal_text(to.port as nat)
}

/// The probe: a search request that names the endpoint it is sent to, asks
/// for bulbs, and tells them how many seconds they may wait to answer.
pub open spec fn probe_text(to: Endpoint, max_wait_secs: u64) -> Seq<u8> {
    word("M-SEARCH * HTTP/1.1\r\nHOST: ") + endpoint_text(to) + word(
        "\r\nST: wifi_bulb\r\nMAN: \"ssdp:discover\"\r\nMX: ",
    ) + decimal_text(max_wait_secs as nat) + word("\r\n\n\n")
}

/// Writes the probe for an endpoint.
pub fn probe(to: Endpoint, max_wait_secs: u64) -> (datagram: Vec<u8>)
    ensures
        datagram@ == probe_text(to, max_wait_secs),
{
    let mut out: Vec<u8> = Vec::new();
    push_word(&mut out, "M-SEARCH * HTTP/1.1\r\nHOST: ");
    push_decimal(&mut out, to.address.0 as u64);
    push_word(&mut out, ".");
    push_decimal(&mut out, to.address.1 as u64);
    push_word(&mut out, ".");
    push_decimal(&mut out, to.address.2 as u64);
    push_word(&mut out, ".");
    push_decimal(&mut out, to.address.3 as u64);
    push_word(&mut out, ":");
    push_decimal(&mut out, to.port as u64);
    push_word(&mut out, "\r\nST: wifi_bulb\r\nMAN: \"ssdp:discover\"\r\nMX: ");
    push_decimal(&mut out, max_wait_secs);
    push_word(&mut out, "\r\n\n\n");
    assert(out@ =~= probe_text(to, max_wait_secs));
    out
}

/// What a scanner holds, as mathematical values. Times are readings of the
/// caller's clock, in milliseconds.
pub struct ScannerView {
    /// The least time between two probes.
    pub interval_ms: u64,
    /// How long bulbs may wait to answer, and the scanner for a reply.
    pub max_wait_secs: u64,
    /// When the last probe was let go, if one was.
    pub last_probe_ms: Option<u64>,
    /// Whether the scanner was told to stop.
    pub cancelled: bool,
}

/// Whether a probe may leave at `now_ms`: none has left yet, or the last one
/// left at least an interval ago.
pub open spec fn due(scanner: ScannerView, now_ms: u64) -> bool {
    match scanner.last_probe_ms {
        None => true,
        Some(last) => now_ms - last >= scanner.interval_ms,
    }
}

/// How long it is from `now_ms` until a probe may leave, where none may
/// leave yet.
pub open spec fn time_to_wait(scanner: ScannerView, now_ms: u64) -> int {
    scanner.last_probe_ms->0 + scanner.interval_ms - now_ms
}

/// What a turn at `now_ms` makes of a scanner, and whether a probe leaves
/// in it.
pub open spec fn polled(scanner: ScannerView, now_ms: u64) -> (ScannerView, bool) {
    if !scanner.cancelled && due(scanner, now_ms) {
        (ScannerView { last_probe_ms: Some(now_ms), ..scanner }, true)
    } else {
        (scanner, false)
    }
}

/// The times at which probes leave, where a scanner takes its turns at the
/// clock readings `clock`, one after the other.
pub open spec fn probe_times(scanner: ScannerView, clock: Seq<u64>) -> Seq<u64>
    decreases clock.len(),
{
    if clock.len() == 0 {
        Seq::empty()
    } else {
        let (next, sent) = polled(scanner, clock[0]);
        if sent {
            seq![clock[0]] + probe_times(next, clock.drop_first())
        } else {
            probe_times(next, clock.drop_first())
        }
    }
}

/// The one thing to do in a turn of the scanner's loop.
#[derive(Debug, Clone, PartialEq, Eq)]
pub enum Step {
    /// Send this datagram to the multicast group, then wait for one reply,
    /// for no longer than the given number of seconds.
    Probe { datagram: Vec<u8>, reply_within_secs: u64 },
    /// Nothing is due: come back in this many milliseconds.
    Wait { millis: u64 },
    /// The scanner was cancelled: leave the loop.
    Stop,
}

/// The discovery scanner of one loop.
pub struct Scanner {
    interval_ms: u64,
    max_wait_secs: u64,
    last_probe_ms: Option<u64>,
    cancelled: bool,
}

impl View for Scanner {
    type V = ScannerView;

    closed spec fn view(&self) -> ScannerView {
        ScannerView {
            interval_ms: self.interval_ms,
            max_wait_secs: self.max_wait_secs,
            last_probe_ms: self.last_probe_ms,
            cancelled: self.cancelled,
        }
    }
}

impl Scanner {
    /// A scanner that lets a probe go at most every `interval_ms`
    /// milliseconds, the first one at once.
    pub fn new(interval_ms: u64) -> (scanner: Scanner)
        ensures
            scanner@ == (ScannerView {
                interval_ms,
                max_wait_secs: DEFAULT_MX,
                last_probe_ms: None,
                cancelled: false,
            }),
    {
        Scanner { interval_ms, max_wait_secs: DEFAULT_MX, last_probe_ms: None, cancelled: false }
    }

    /// The least time between two probes, in milliseconds.
    pub fn interval_ms(&self) -> (interval: u64)
        ensures
            interval == self@.interval_ms,
    {
        self.interval_ms
    }

    /// When the last probe was let go, if one was.
    pub fn last_probe_ms(&self) -> (last: Option<u64>)
        ensures
            last == self@.last_probe_ms,
    {
        self.last_probe_ms
    }

    /// Tells the scanner to stop: every later turn answers `Stop`.
    pub fn cancel(&mut self)
        ensures
            final(self)@ == (ScannerView { cancelled: true, ..old(self)@ }),
    {
        self.cancelled = true;
    }

    /// One turn of the loop, at the clock reading `now_ms`.
    ///
    /// A cancelled scanner stops. Else a probe leaves where one is due, and
    /// the scanner remembers `now_ms` as the time it left; where none is due
    /// the answer is how long to wait. A wait too long for the number
    /// is given as the largest number.
    pub fn poll(&mut self, now_ms: u64) -> (step: Step)
        ensures
            final(self)@ == polled(old(self)@, now_ms).0,
            match step {
                Step::Probe { datagram, reply_within_secs } => {
                    &&& polled(old(self)@, now_ms).1
                    &&& datagram@ == probe_text(discovery_group(), old(self)@.max_wait_secs)
                    &&& reply_within_secs == old(self)@.max_wait_secs
                },
                Step::Wait { millis } => {
                    &&& !old(self)@.cancelled
                    &&& !due(old(self)@, now_ms)
                    &&& millis == if time_to_wait(old(self)@, now_ms) <= u64::MAX {
                        time_to_wait(old(self)@, now_ms)
                    } else {
                        u64::MAX as int
                    }
                },
                Step::Stop => old(self)@.cancelled,
            },
    {
        if self.cancelled {
            return Step::Stop;
        }
        match self.last_probe_ms {
            Some(last) => {
                if now_ms >= last {
                    let elapsed: u64 = now_ms - last;
                    if elapsed < self.interval_ms {
                        return Step::Wait { millis: self.interval_ms - elapsed };
                    }
                } else {
                    let ahead: u64 = last - now_ms;
                    let millis: u64 = if ahead > u64::MAX - self.interval_ms {
                        u64::MAX
                    } else {
                        ahead + self.interval_ms
                    };
                    return Step::Wait { millis };
                }
            },
            None => {},
        }
        self.last_probe_ms = Some(now_ms);
        Step::Probe {
            datagram: probe(multicast_group(), self.max_wait_secs),
            reply_within_secs: self.max_wait_secs,
        }
    }
}

/// Probes keep their distance: whatever the clock readings at which a
/// scanner takes its turns, any two probes that leave one after the other
/// are at least an interval apart, and the first of them is at least an
/// interval after the probe that left before these turns, if one did.
pub proof fn lemma_probes_keep_their_distance(scanner: ScannerView, clock: Seq<u64>)
    ensures
        forall|i: int|
            0 <= i < probe_times(scanner, clock).len() - 1 ==> probe_times(scanner, clock)[i + 1]
                - #[trigger] probe_times(scanner, clock)[i] >= scanner.interval_ms,
        scanner.last_probe_ms is Some && probe_times(scanner, clock).len() > 0 ==> probe_times(
            scanner,
            clock,
        )[0] - scanner.last_probe_ms->0 >= scanner.interval_ms,
    decreases clock.len(),
{
    if clock.len() > 0 {
        let (next, sent) = polled(scanner, clock[0]);
        let rest = probe_times(next, clock.drop_first());
        lemma_probes_keep_their_distance(next, clock.drop_first());
        if sent {
            let all = probe_times(scanner, clock);
            assert(all =~= seq![clock[0]] + rest);
            assert forall|i: int| 0 <= i < all.len() - 1 implies all[i + 1] - #[trigger] all[i]
                >= scanner.interval_ms by {
                if i > 0 {
                    assert(all[i] == rest[i - 1]);
                    assert(all[i + 1] == rest[i - 1 + 1]);
                } else {
                    assert(all[1] == rest[0]);
                }
            }
        }
    }
}

/// A cancelled scanner sends nothing more.
pub proof fn lemma_cancelled_scanner_is_silent(scanner: ScannerView, clock: Seq<u64>)
    requires
        scanner.cancelled,
    ensures
        probe_times(scanner, clock).len() == 0,
    decreases clock.len(),
{
    if clock.len() > 0 {
        lemma_cancelled_scanner_is_silent(scanner, clock.drop_first());
    }
}

} // verus!
