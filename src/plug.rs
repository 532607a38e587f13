use vstd::prelude::*;
use vstd::string::StringExecFns;
use chrono::Timelike;
use crate::point::{Datum, DatumView, Measurement as Kind};

verus! {

/// Milliseconds to wait after a failed connection to a device.
pub const NOT_CONNECTED_RETRY_MS: u64 = 60_000;

/// Milliseconds to wait after an HTTP error status or an invalid reading.
pub const REJECTED_RETRY_MS: u64 = 600_000;

/// Seconds of slack added to the wait for the next minute, to absorb the
/// skew between the device's clock and the collector's.
pub const SLACK_S: u64 = 10;

/// Number of per-minute energy counters in a reading.
pub const COUNTER_SLOTS: usize = 3;

/// Configuration of one metering device.
pub struct Config {
    /// Name of this device
    pub name: String,
    /// Host name or IP address of the device
    pub host: String,
    /// Seconds between polls of the instantaneous power; negative disables them
    pub instantaneous_meter_interval_in_s: i32,
}

pub struct ConfigView {
    pub name: Seq<char>,
    pub host: Seq<char>,
    pub instantaneous_meter_interval_in_s: i32,
}

impl View for Config {
    type V = ConfigView;

    open spec fn view(&self) -> ConfigView {
        ConfigView {
            name: self.name@,
            host: self.host@,
            instantaneous_meter_interval_in_s: self.instantaneous_meter_interval_in_s,
        }
    }
}

/// The URL of a device's meter endpoint.
pub open spec fn endpoint_url(host: Seq<char>) -> Seq<char> {
    "http://"@ + host + "/meter/0"@
}

/// The interval of instantaneous polling, in milliseconds, if enabled.
pub open spec fn interval_ms(s: i32) -> Option<u64> {
    if s < 0 {
        None
    } else {
        Some((s as int * 1000) as u64)
    }
}

impl Config {
    /// A copy of this configuration.
    pub fn duplicate(&self) -> (r: Config)
        ensures
            r@ == self@,
    {
        Config {
            name: self.name.clone(),
            host: self.host.clone(),
            instantaneous_meter_interval_in_s: self.instantaneous_meter_interval_in_s,
        }
    }

    /// URL of the (only) meter endpoint
    pub fn meter_endpoint_url(&self) -> (r: String)
        ensures
            r@ == endpoint_url(self.host@),
    {
        let scheme = "http://";
        let path = "/meter/0";
        proof {
            reveal_strlit("http://");
            reveal_strlit("/meter/0");
        }
        let mut url = String::from_str(scheme);
        url.append(self.host.as_str());
        url.append(path);
        url
    }

    /// Interval between polls of the instantaneous power, in milliseconds
    pub fn instantaneous_meter_interval(&self) -> (r: Option<u64>)
        ensures
            r == interval_ms(self.instantaneous_meter_interval_in_s),
    {
        if self.instantaneous_meter_interval_in_s < 0 {
            None
        } else {
            Some(self.instantaneous_meter_interval_in_s as u64 * 1000)
        }
    }
}

/// A reading of a device's meter endpoint. Power is in microwatts, energy
/// in micro-watt-minutes.
pub struct Measurement {
    /// Real AC power being drawn
    pub power: i64,
    /// Whether the device's metering self-check passed
    pub is_valid: bool,
    /// Device-local time of the last counter update, in UNIX seconds
    pub timestamp: i64,
    /// Energy counted in each of the last round minutes, newest first
    pub counters: Vec<i64>,
    /// Energy counted since the device restarted
    pub total: i64,
}

/// Integer division that rounds toward zero.
pub open spec fn div_toward_zero(x: int, d: int) -> int {
    if x >= 0 {
        x / d
    } else {
        -((-x) / d)
    }
}

/// Millionths of a watt-hour in an energy given in micro-watt-minutes.
pub open spec fn watt_hours(wmin: i64) -> int {
    div_toward_zero(wmin as int, 60)
}

/// Milliseconds from a second of a minute to the next minute, plus slack.
pub open spec fn next_update_delay_ms(second: int) -> int {
    (60 - second + SLACK_S) * 1000
}

/// Second of the minute of a UNIX time, as chrono computes it.
pub open spec fn second_of_minute(t: i64) -> int {
    t as int % 60
}

/// Earliest UNIX time for which chrono's `DateTime::from_timestamp` returns
/// a time: the start of January 2 of year -262143.
pub const EARLIEST_TIME: i64 = -8_334_601_228_800;

/// Latest UNIX time that chrono represents: December 31 of year 262142, 23:59:59.
pub const LATEST_TIME: i64 = 8_210_266_876_799;

/// Whether chrono can represent a UNIX time.
pub open spec fn representable(t: i64) -> bool {
    EARLIEST_TIME <= t <= LATEST_TIME
}

/// The wait for the device's next minute after a reading stamped `t`,
/// where chrono can represent `t`.
pub open spec fn update_delay(t: i64) -> Option<u64> {
    if representable(t) {
        Some(next_update_delay_ms(second_of_minute(t)) as u64)
    } else {
        None
    }
}

/// Relies on chrono's `DateTime::from_timestamp` and `Timelike::second`:
/// `Some` on chrono's whole date range, holding the second of the minute of
/// the time; `None` outside it.
#[verifier::external_body]
fn device_second(timestamp: i64) -> (r: Option<u32>)
    ensures
        r matches Some(s) ==> s as int == second_of_minute(timestamp),
        r is Some <==> representable(timestamp),
{
    match chrono::DateTime::from_timestamp(timestamp, 0) {
        Some(t) => Some(t.second()),
        None => None,
    }
}

/// Milliseconds from the given second of a minute to the start of the next
/// minute, plus the clock-skew slack.
pub fn delay_to_next_minute(second: u32) -> (r: u64)
    requires
        second < 60,
    ensures
        r == next_update_delay_ms(second as int),
{
    (60 - second as u64 + SLACK_S) * 1000
}

impl Measurement {
    /// Instantaneous power, in microwatts
    pub fn instantaneous_consumption_in_w(&self) -> (r: i64)
        ensures
            r == self.power,
    {
        self.power
    }

    /// Energy of the last round minute, in millionths of a watt-hour
    pub fn last_minute_consumption_in_wh(&self) -> (r: i64)
        requires
            self.counters@.len() >= 1,
        ensures
            r == watt_hours(self.counters@[0]),
    {
        self.counters[0] / 60
    }

    /// Energy since the device restarted, in millionths of a watt-hour
    pub fn consumption_since_reboot_in_wh(&self) -> (r: i64)
        ensures
            r == watt_hours(self.total),
    {
        self.total / 60
    }

    /// Milliseconds until the device next updates its counters, plus slack;
    /// `None` where the device's time is no representable UNIX time.
    pub fn time_to_next_update(&self) -> (r: Option<u64>)
        ensures
            r == update_delay(self.timestamp),
    {
        match device_second(self.timestamp) {
            Some(s) => Some(delay_to_next_minute(s)),
            None => None,
        }
    }
}

/// Why a poll produced no reading.
pub enum MeterError {
    /// A transient problem: poll again after this many milliseconds.
    Recoverable(u64),
    /// The device broke the expected grammar: stop polling it.
    Unrecoverable(String),
}

pub enum MeterErrorView {
    Recoverable(u64),
    Unrecoverable(Seq<char>),
}

impl View for MeterError {
    type V = MeterErrorView;

    open spec fn view(&self) -> MeterErrorView {
        match self {
            MeterError::Recoverable(d) => MeterErrorView::Recoverable(*d),
            MeterError::Unrecoverable(s) => MeterErrorView::Unrecoverable(s@),
        }
    }
}

/// The outcome of one HTTP poll of a device's meter endpoint.
pub enum Response {
    /// No connection could be made, or it broke down.
    NotConnected,
    /// The device answered with this non-success status.
    HttpStatus(u16),
    /// The body did not parse as a reading.
    Unparsable,
    /// The body parsed as this reading.
    Parsed(Measurement),
}

/// Whether a parsed reading has the shape that the grammar asks for.
pub open spec fn well_formed(m: Measurement) -> bool {
    m.counters@.len() == COUNTER_SLOTS
}

/// Why polling of a device stops when it breaks the grammar.
pub open spec fn grammar_message(host: Seq<char>) -> Seq<char> {
    host + " did not return JSON with the expected grammar. Measurements are stopped."@
}

/// What a poll of the device at `host` yields.
pub open spec fn verdict(host: Seq<char>, resp: Response) -> Result<Measurement, MeterErrorView> {
    match resp {
        Response::NotConnected => Err(MeterErrorView::Recoverable(NOT_CONNECTED_RETRY_MS)),
        Response::HttpStatus(_) => Err(MeterErrorView::Recoverable(REJECTED_RETRY_MS)),
        Response::Unparsable => Err(MeterErrorView::Unrecoverable(grammar_message(host))),
        Response::Parsed(m) => if !well_formed(m) {
            Err(MeterErrorView::Unrecoverable(grammar_message(host)))
        } else if !m.is_valid {
            Err(MeterErrorView::Recoverable(REJECTED_RETRY_MS))
        } else {
            Ok(m)
        },
    }
}

pub open spec fn result_view(r: Result<Measurement, MeterError>) -> Result<Measurement, MeterErrorView> {
    match r {
        Ok(m) => Ok(m),
        Err(e) => Err(e@),
    }
}

/// A meter polls one device.
pub struct Meter {
    pub config: Config,
    /// Network timeout of a poll, in milliseconds
    pub timeout: u64,
}

impl Meter {
    /// Create a new meter
    pub fn new(shelly_plug_config: &Config, network_timeout: u64) -> (r: Meter)
        ensures
            r.config@ == shelly_plug_config@,
            r.timeout == network_timeout,
    {
        Meter { config: shelly_plug_config.duplicate(), timeout: network_timeout }
    }

    /// Classifies the outcome of one poll of the device.
    pub fn measure(&self, response: Response) -> (r: Result<Measurement, MeterError>)
        ensures
            result_view(r) == verdict(self.config.host@, response),
    {
        match response {
            Response::NotConnected => Err(MeterError::Recoverable(NOT_CONNECTED_RETRY_MS)),
            Response::HttpStatus(_) => Err(MeterError::Recoverable(REJECTED_RETRY_MS)),
            Response::Unparsable => Err(MeterError::Unrecoverable(self.grammar_violation())),
            Response::Parsed(m) => {
                if m.counters.len() != COUNTER_SLOTS {
                    Err(MeterError::Unrecoverable(self.grammar_violation()))
                } else if !m.is_valid {
                    Err(MeterError::Recoverable(REJECTED_RETRY_MS))
                } else {
                    Ok(m)
                }
            },
        }
    }

    fn grammar_violation(&self) -> (r: String)
        ensures
            r@ == grammar_message(self.config.host@),
    {
        let tail = " did not return JSON with the expected grammar. Measurements are stopped.";
        proof {
            reveal_strlit(" did not return JSON with the expected grammar. Measurements are stopped.");
        }
        let mut msg = self.config.host.clone();
        msg.append(tail);
        msg
    }
}

/// What a metering loop does after a poll.
pub enum Next {
    /// Sleep this many milliseconds, next poll again.
    Sleep(u64),
    /// End the loop with this outcome.
    Stop(Result<(), String>),
}

/// The data that a metering loop sends after a poll, in order, and what it
/// does next.
pub struct Step {
    pub data: Vec<Datum>,
    pub next: Next,
}

pub enum NextView {
    Sleep(u64),
    Stop(Result<(), Seq<char>>),
}

pub struct StepView {
    pub data: Seq<DatumView>,
    pub next: NextView,
}

impl View for Step {
    type V = StepView;

    open spec fn view(&self) -> StepView {
        StepView {
            data: self.data@.map_values(|d: Datum| d@),
            next: match self.next {
                Next::Sleep(d) => NextView::Sleep(d),
                Next::Stop(Ok(())) => NextView::Stop(Ok(())),
                Next::Stop(Err(s)) => NextView::Stop(Err(s@)),
            },
        }
    }
}

pub open spec fn datum_of(
    kind: Kind,
    c: ConfigView,
    measured_on: i64,
    value: int,
) -> DatumView {
    DatumView {
        measured_on,
        measurement: kind,
        device_name: c.name,
        device_host: c.host,
        value,
    }
}

/// Why minute polling of a device stops when its time makes no sense.
pub open spec fn time_message(host: Seq<char>) -> Seq<char> {
    host + " reports a time that is no UNIX time-stamp. Measurements are stopped."@
}

/// The step of the minute loop of the device `c` after a poll that yielded
/// `res`, with collection time `measured_on` and the delay to the device's
/// next minute, where its time gave one.
pub open spec fn minute_step(
    c: ConfigView,
    res: Result<Measurement, MeterErrorView>,
    measured_on: i64,
    delay: Option<u64>,
) -> StepView {
    match res {
        Ok(m) => StepView {
            data: seq![
                datum_of(Kind::LastMinuteConsumptionInWh, c, measured_on, watt_hours(m.counters@[0])),
                datum_of(Kind::ConsumptionSinceRebootInWh, c, measured_on, watt_hours(m.total)),
            ],
            next: match delay {
                Some(d) => NextView::Sleep(d),
                None => NextView::Stop(Err(time_message(c.host))),
            },
        },
        Err(MeterErrorView::Recoverable(d)) => StepView { data: seq![], next: NextView::Sleep(d) },
        Err(MeterErrorView::Unrecoverable(s)) => StepView {
            data: seq![],
            next: NextView::Stop(Err(s)),
        },
    }
}

/// The step of the instantaneous loop of the device `c`, polled every
/// `interval` milliseconds, after a poll that yielded `res`.
pub open spec fn instantaneous_step(
    c: ConfigView,
    interval: u64,
    res: Result<Measurement, MeterErrorView>,
    measured_on: i64,
) -> StepView {
    match res {
        Ok(m) => StepView {
            data: seq![datum_of(Kind::InstantaneousConsumptionInW, c, measured_on, m.power as int)],
            next: NextView::Sleep(interval),
        },
        Err(MeterErrorView::Recoverable(d)) => StepView { data: seq![], next: NextView::Sleep(d) },
        Err(MeterErrorView::Unrecoverable(s)) => StepView {
            data: seq![],
            next: NextView::Stop(Err(s)),
        },
    }
}

/// What a metering loop does after it tried to send a data point: go on
/// (`None`) where the point was sent, or else end as an ordinary shutdown,
/// sending nothing more, since the bus to the sink is closed.
pub fn after_send(sent: bool) -> (r: Option<Result<(), String>>)
    ensures
        sent ==> r is None,
        !sent ==> r matches Some(Ok(())),
{
    if sent {
        None
    } else {
        Some(Ok(()))
    }
}

fn datum(kind: Kind, c: &Config, measured_on: i64, value: i64) -> (r: Datum)
    ensures
        r@ == datum_of(kind, c@, measured_on, value as int),
{
    Datum {
        measured_on,
        measurement: kind,
        device_name: c.name.clone(),
        device_host: c.host.clone(),
        value,
    }
}

fn stop_with(s: String) -> (r: Step)
    ensures
        r@ == (StepView { data: seq![], next: NextView::Stop(Err(s@)) }),
{
    let r = Step { data: Vec::new(), next: Next::Stop(Err(s)) };
    assert(r@.data =~= seq![]);
    r
}

fn sleep_for(d: u64) -> (r: Step)
    ensures
        r@ == (StepView { data: seq![], next: NextView::Sleep(d) }),
{
    let r = Step { data: Vec::new(), next: Next::Sleep(d) };
    assert(r@.data =~= seq![]);
    r
}

/// Polls one device for the energy of each round minute.
pub struct MinuteMeter {
    pub meter: Meter,
}

impl MinuteMeter {
    pub fn new(shelly_plug_config: &Config, network_timeout: u64) -> (r: MinuteMeter)
        ensures
            r.meter.config@ == shelly_plug_config@,
            r.meter.timeout == network_timeout,
    {
        MinuteMeter { meter: Meter::new(shelly_plug_config, network_timeout) }
    }

    /// The step after a poll that yielded `res`, collected at `measured_on`,
    /// with `delay` the wait for the device's next minute where known.
    pub fn step(&self, res: Result<Measurement, MeterError>, measured_on: i64, delay: Option<u64>) -> (r: Step)
        requires
            res matches Ok(m) ==> well_formed(m),
        ensures
            r@ == minute_step(self.meter.config@, result_view(res), measured_on, delay),
    {
        let c = &self.meter.config;
        match res {
            Ok(m) => {
                let d1 = datum(Kind::LastMinuteConsumptionInWh, c, measured_on, m.last_minute_consumption_in_wh());
                let d2 = datum(Kind::ConsumptionSinceRebootInWh, c, measured_on, m.consumption_since_reboot_in_wh());
                let next = match delay {
                    Some(d) => Next::Sleep(d),
                    None => Next::Stop(Err(self.time_violation())),
                };
                let mut data = Vec::new();
                data.push(d1);
                data.push(d2);
                let r = Step { data, next };
                assert(r@.data =~= minute_step(self.meter.config@, result_view(res), measured_on, delay).data);
                r
            },
            Err(MeterError::Recoverable(d)) => sleep_for(d),
            Err(MeterError::Unrecoverable(s)) => stop_with(s),
        }
    }

    /// Classifies one poll of the device, collected at `measured_on`, and
    /// takes the step that follows; the wait after a reading follows the
    /// device's clock.
    pub fn on_response(&self, response: Response, measured_on: i64) -> (r: Step)
        ensures
            r@ == minute_step(
                self.meter.config@,
                verdict(self.meter.config.host@, response),
                measured_on,
                match verdict(self.meter.config.host@, response) {
                    Ok(m) => update_delay(m.timestamp),
                    Err(_) => None,
                },
            ),
    {
        let res = self.meter.measure(response);
        let delay = match &res {
            Ok(m) => m.time_to_next_update(),
            Err(_) => None,
        };
        self.step(res, measured_on, delay)
    }

    fn time_violation(&self) -> (r: String)
        ensures
            r@ == time_message(self.meter.config.host@),
    {
        let tail = " reports a time that is no UNIX time-stamp. Measurements are stopped.";
        proof {
            reveal_strlit(" reports a time that is no UNIX time-stamp. Measurements are stopped.");
        }
        let mut msg = self.meter.config.host.clone();
        msg.append(tail);
        msg
    }
}

/// Polls one device for its instantaneous power at a fixed interval.
pub struct InstantaneousMeter {
    pub meter: Meter,
    /// Milliseconds between polls
    pub interval: u64,
}

impl InstantaneousMeter {
    /// The instantaneous meter of a device, or `None` where the device's
    /// interval is negative and instantaneous polling is disabled.
    pub fn new(shelly_plug_config: &Config, network_timeout: u64) -> (r: Option<InstantaneousMeter>)
        ensures
            r is None <==> shelly_plug_config.instantaneous_meter_interval_in_s < 0,
            r matches Some(im) ==> im.meter.config@ == shelly_plug_config@
                && im.meter.timeout == network_timeout
                && Some(im.interval) == interval_ms(shelly_plug_config.instantaneous_meter_interval_in_s),
    {
        match shelly_plug_config.instantaneous_meter_interval() {
            None => None,
            Some(interval) => Some(
                InstantaneousMeter { meter: Meter::new(shelly_plug_config, network_timeout), interval },
            ),
        }
    }

    /// The step after a poll that yielded `res`, collected at `measured_on`.
    pub fn step(&self, res: Result<Measurement, MeterError>, measured_on: i64) -> (r: Step)
        ensures
            r@ == instantaneous_step(self.meter.config@, self.interval, result_view(res), measured_on),
    {
        let c = &self.meter.config;
        match res {
            Ok(m) => {
                let d = datum(Kind::InstantaneousConsumptionInW, c, measured_on, m.instantaneous_consumption_in_w());
                let mut data = Vec::new();
                data.push(d);
                let r = Step { data, next: Next::Sleep(self.interval) };
                assert(r@.data =~= instantaneous_step(self.meter.config@, self.interval, result_view(res), measured_on).data);
                r
            },
            Err(MeterError::Recoverable(d)) => sleep_for(d),
            Err(MeterError::Unrecoverable(s)) => stop_with(s),
        }
    }

    /// Classifies one poll of the device, collected at `measured_on`, and
    /// takes the step that follows.
    pub fn on_response(&self, response: Response, measured_on: i64) -> (r: Step)
        ensures
            r@ == instantaneous_step(
                self.meter.config@,
                self.interval,
                verdict(self.meter.config.host@, response),
                measured_on,
            ),
    {
        let res = self.meter.measure(response);
        self.step(res, measured_on)
    }
}

/// The wait after a reading lies between 11 and 70 seconds, ends at second
/// 10 of the device's next minute, and does not change when the device's
/// time moves by whole minutes.
pub proof fn lemma_next_poll_at_second_ten(t: i64, k: int)
    requires
        EARLIEST_TIME <= t as int + 60 * k <= LATEST_TIME,
    ensures
        11_000 <= next_update_delay_ms(second_of_minute(t)) <= 70_000,
        next_update_delay_ms(second_of_minute(t)) % 1000 == 0,
        (t + next_update_delay_ms(second_of_minute(t)) / 1000) % 60 == SLACK_S,
        next_update_delay_ms(second_of_minute((t as int + 60 * k) as i64))
            == next_update_delay_ms(second_of_minute(t)),
{
    let s = t as int % 60;
    assert((t as int + 60 * k) % 60 == s) by (nonlinear_arith)
        requires s == t as int % 60;
    assert((t + (60 - s + 10)) % 60 == 10) by (nonlinear_arith)
        requires s == t as int % 60, 0 <= s < 60;
}

/// A response that breaks the grammar is unrecoverable: the loop that polled
/// it sends nothing and stops with a failure.
pub proof fn lemma_grammar_violation_stops(
    c: ConfigView,
    interval: u64,
    resp: Response,
    measured_on: i64,
    delay: Option<u64>,
)
    requires
        resp is Unparsable || (resp matches Response::Parsed(m) && !well_formed(m)),
    ensures
        verdict(c.host, resp) == Err::<Measurement, MeterErrorView>(
            MeterErrorView::Unrecoverable(grammar_message(c.host)),
        ),
        minute_step(c, verdict(c.host, resp), measured_on, delay) == (StepView {
            data: seq![],
            next: NextView::Stop(Err(grammar_message(c.host))),
        }),
        instantaneous_step(c, interval, verdict(c.host, resp), measured_on) == (StepView {
            data: seq![],
            next: NextView::Stop(Err(grammar_message(c.host))),
        }),
{
}

/// A well-formed reading that the device marks invalid is retried after ten
/// minutes, and nothing is sent for it.
pub proof fn lemma_invalid_reading_retried(
    c: ConfigView,
    interval: u64,
    m: Measurement,
    measured_on: i64,
    delay: Option<u64>,
)
    requires
        well_formed(m),
        !m.is_valid,
    ensures
        verdict(c.host, Response::Parsed(m)) == Err::<Measurement, MeterErrorView>(
            MeterErrorView::Recoverable(REJECTED_RETRY_MS),
        ),
        REJECTED_RETRY_MS == 600 * 1000,
        minute_step(c, verdict(c.host, Response::Parsed(m)), measured_on, delay) == (StepView {
            data: seq![],
            next: NextView::Sleep(REJECTED_RETRY_MS),
        }),
        instantaneous_step(c, interval, verdict(c.host, Response::Parsed(m)), measured_on) == (
        StepView { data: seq![], next: NextView::Sleep(REJECTED_RETRY_MS) }),
{
}

/// Whether a data point is of the given kind and device.
pub open spec fn of_pair(kind: Kind, device: Seq<char>) -> spec_fn(DatumView) -> bool {
    |d: DatumView| d.measurement == kind && d.device_name == device
}

/// How many data points of a kind and a device a sequence holds.
pub open spec fn count_of(s: Seq<DatumView>, kind: Kind, device: Seq<char>) -> nat {
    s.filter(of_pair(kind, device)).len()
}

pub open spec fn indicator(b: bool) -> nat {
    if b { 1 } else { 0 }
}

proof fn lemma_filter_len4(a: DatumView, b: DatumView, c: DatumView, d: DatumView, p: spec_fn(DatumView) -> bool)
    ensures
        seq![a, b, c, d].filter(p).len() == indicator(p(a)) + indicator(p(b)) + indicator(p(c))
            + indicator(p(d)),
{
    let e = Seq::<DatumView>::empty();
    assert(e.filter(p) =~= e) by {
        reveal(Seq::filter);
    }
    e.lemma_filter_push(a, p);
    e.push(a).lemma_filter_push(b, p);
    e.push(a).push(b).lemma_filter_push(c, p);
    e.push(a).push(b).push(c).lemma_filter_push(d, p);
    assert(seq![a, b, c, d] =~= e.push(a).push(b).push(c).push(d));
}

/// Two devices with distinct names that both answer with a valid reading in
/// one cycle of their minute loops send four data points, one of each
/// minute kind for each device; the counts do not depend on how the two
/// producers interleave.
pub proof fn lemma_two_devices_one_cycle(
    c1: ConfigView,
    c2: ConfigView,
    m1: Measurement,
    m2: Measurement,
    t1: i64,
    t2: i64,
    delay1: Option<u64>,
    delay2: Option<u64>,
)
    requires
        c1.name != c2.name,
        well_formed(m1) && m1.is_valid,
        well_formed(m2) && m2.is_valid,
    ensures
        ({
            let all = minute_step(c1, verdict(c1.host, Response::Parsed(m1)), t1, delay1).data
                + minute_step(c2, verdict(c2.host, Response::Parsed(m2)), t2, delay2).data;
            &&& all.len() == 4
            &&& count_of(all, Kind::LastMinuteConsumptionInWh, c1.name) == 1
            &&& count_of(all, Kind::ConsumptionSinceRebootInWh, c1.name) == 1
            &&& count_of(all, Kind::LastMinuteConsumptionInWh, c2.name) == 1
            &&& count_of(all, Kind::ConsumptionSinceRebootInWh, c2.name) == 1
        }),
{
    let s1 = minute_step(c1, verdict(c1.host, Response::Parsed(m1)), t1, delay1).data;
    let s2 = minute_step(c2, verdict(c2.host, Response::Parsed(m2)), t2, delay2).data;
    let all = s1 + s2;
    assert(all =~= seq![s1[0], s1[1], s2[0], s2[1]]);
    lemma_filter_len4(s1[0], s1[1], s2[0], s2[1], of_pair(Kind::LastMinuteConsumptionInWh, c1.name));
    lemma_filter_len4(s1[0], s1[1], s2[0], s2[1], of_pair(Kind::ConsumptionSinceRebootInWh, c1.name));
    lemma_filter_len4(s1[0], s1[1], s2[0], s2[1], of_pair(Kind::LastMinuteConsumptionInWh, c2.name));
    lemma_filter_len4(s1[0], s1[1], s2[0], s2[1], of_pair(Kind::ConsumptionSinceRebootInWh, c2.name));
}

} // verus!
