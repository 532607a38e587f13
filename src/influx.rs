use vstd::prelude::*;
use vstd::string::StringExecFns;

verus! {

/// Milliseconds the pump waits before it reconnects after a failed write.
pub const RECONNECT_DELAY_MS: u64 = 5000;

/// Configuration of the time-series sink.
pub struct Config {
    pub https: bool,
    pub host: String,
    pub port: u32,
    pub token: String,
    pub org: String,
    pub bucket: String,
}

/// The character of a decimal digit.
pub open spec fn digit_char(d: nat) -> char {
    if d == 0 { '0' } else if d == 1 { '1' } else if d == 2 { '2' } else if d == 3 { '3' }
    else if d == 4 { '4' } else if d == 5 { '5' } else if d == 6 { '6' } else if d == 7 { '7' }
    else if d == 8 { '8' } else { '9' }
}

/// The decimal notation of a natural number, without leading zeros.
pub open spec fn decimal(n: nat) -> Seq<char>
    decreases n,
{
    if n < 10 {
        seq![digit_char(n)]
    } else {
        decimal(n / 10).push(digit_char(n % 10))
    }
}

/// The URL of the sink's server.
pub open spec fn server_url(https: bool, host: Seq<char>, port: nat) -> Seq<char> {
    (if https { "https"@ } else { "http"@ }) + "://"@ + host + ":"@ + decimal(port)
}

fn digit_str(d: u32) -> (r: &'static str)
    requires
        d < 10,
    ensures
        r@ == seq![digit_char(d as nat)],
{
    proof {
        reveal_strlit("0");
        reveal_strlit("1");
        reveal_strlit("2");
        reveal_strlit("3");
        reveal_strlit("4");
        reveal_strlit("5");
        reveal_strlit("6");
        reveal_strlit("7");
        reveal_strlit("8");
        reveal_strlit("9");
    }
    if d == 0 { "0" } else if d == 1 { "1" } else if d == 2 { "2" } else if d == 3 { "3" }
    else if d == 4 { "4" } else if d == 5 { "5" } else if d == 6 { "6" } else if d == 7 { "7" }
    else if d == 8 { "8" } else { "9" }
}

/// Appends the decimal notation of `n` to `s`.
pub fn append_decimal(s: &mut String, n: u32)
    ensures
        final(s)@ == old(s)@ + decimal(n as nat),
    decreases n,
{
    if n >= 10 {
        append_decimal(s, n / 10);
    }
    s.append(digit_str(n % 10));
    proof {
        if n >= 10 {
            assert(old(s)@ + decimal(n as nat) =~= old(s)@ + decimal((n / 10) as nat) + seq![digit_char((n % 10) as nat)]);
        }
    }
}

impl Config {
    /// The URL of the sink's server.
    pub fn url(&self) -> (r: String)
        ensures
            r@ == server_url(self.https, self.host@, self.port as nat),
    {
        let scheme = if self.https { "https" } else { "http" };
        let sep = "://";
        let colon = ":";
        proof {
            reveal_strlit("https");
            reveal_strlit("http");
            reveal_strlit("://");
            reveal_strlit(":");
        }
        let mut url = String::from_str(scheme);
        url.append(sep);
        url.append(self.host.as_str());
        url.append(colon);
        append_decimal(&mut url, self.port);
        url
    }
}

/// What happened to the pump's last attempt to take and write a data point.
#[derive(Clone, Copy, Debug, PartialEq, Eq, Structural)]
pub enum PumpEvent {
    /// The data point was written.
    Written,
    /// Writing the data point failed; it is lost.
    WriteFailed,
    /// The bus is closed on the producing side and empty.
    BusClosed,
}

/// What the pump does next.
#[derive(Clone, Copy, Debug, PartialEq, Eq, Structural)]
pub enum PumpAction {
    /// Take the next data point.
    Continue,
    /// Report that the connection is healthy again, then take the next data point.
    AnnounceRecovery,
    /// Sleep this many milliseconds, replace the connection, then take the next data point.
    Reconnect(u64),
    /// End the pump successfully.
    Finish,
}

/// The health after an event and the action it calls for.
pub open spec fn pump_next(healthy: bool, ev: PumpEvent) -> (bool, PumpAction) {
    match ev {
        PumpEvent::Written => if healthy {
            (true, PumpAction::Continue)
        } else {
            (true, PumpAction::AnnounceRecovery)
        },
        PumpEvent::WriteFailed => (false, PumpAction::Reconnect(RECONNECT_DELAY_MS)),
        PumpEvent::BusClosed => (healthy, PumpAction::Finish),
    }
}

/// The number of recoveries announced along a run of events.
pub open spec fn recoveries(healthy: bool, evs: Seq<PumpEvent>) -> nat
    decreases evs.len(),
{
    if evs.len() == 0 {
        0
    } else {
        let (h, a) = pump_next(healthy, evs[0]);
        (if a == PumpAction::AnnounceRecovery { 1nat } else { 0nat }) + recoveries(h, evs.drop_first())
    }
}

/// The single writer that drains the bus into the sink, and the health of
/// its connection.
pub struct Pump {
    /// Whether no write failed since the connection was last announced healthy
    pub healthy: bool,
}

impl Pump {
    /// A pump whose connection has not failed yet.
    pub fn new() -> (r: Pump)
        ensures
            r.healthy,
    {
        Pump { healthy: true }
    }

    /// Takes in what happened and says what to do next.
    pub fn on_event(&mut self, ev: PumpEvent) -> (r: PumpAction)
        ensures
            (final(self).healthy, r) == pump_next(old(self).healthy, ev),
    {
        match ev {
            PumpEvent::Written => {
                if self.healthy {
                    PumpAction::Continue
                } else {
                    self.healthy = true;
                    PumpAction::AnnounceRecovery
                }
            },
            PumpEvent::WriteFailed => {
                self.healthy = false;
                PumpAction::Reconnect(RECONNECT_DELAY_MS)
            },
            PumpEvent::BusClosed => PumpAction::Finish,
        }
    }
}

/// Writes that all succeed, from a healthy connection, announce no recovery.
pub proof fn lemma_successes_are_silent(evs: Seq<PumpEvent>)
    requires
        forall|i: int| 0 <= i < evs.len() ==> evs[i] == PumpEvent::Written,
    ensures
        recoveries(true, evs) == 0,
    decreases evs.len(),
{
    if evs.len() > 0 {
        lemma_successes_are_silent(evs.drop_first());
    }
}

/// A failed write followed by successful ones announces exactly one
/// recovery, whatever the health before.
pub proof fn lemma_one_recovery_after_failure(healthy: bool, evs: Seq<PumpEvent>)
    requires
        evs.len() >= 1,
        forall|i: int| 0 <= i < evs.len() ==> evs[i] == PumpEvent::Written,
    ensures
        recoveries(healthy, seq![PumpEvent::WriteFailed] + evs) == 1,
{
    let all = seq![PumpEvent::WriteFailed] + evs;
    assert(all.drop_first() =~= evs);
    assert(evs.drop_first().len() < evs.len());
    lemma_successes_are_silent(evs.drop_first());
    assert(recoveries(false, evs) == 1 + recoveries(true, evs.drop_first()));
}

} // verus!
