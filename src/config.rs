use vstd::prelude::*;
use crate::influx;
use crate::plug;
use crate::plug::{ConfigView, InstantaneousMeter, MinuteMeter};

verus! {

/// Configuration of the whole collector.
pub struct Config {
    /// Network timeout in milliseconds
    pub network_timeout_ms: u64,
    /// Configurations of the metering devices
    pub shelly_plugs: Vec<plug::Config>,
    /// Configuration of the sink
    pub influxdb2: influx::Config,
}

/// The metering loops of all devices.
pub struct Meters {
    pub minute: Vec<MinuteMeter>,
    pub instantaneous: Vec<InstantaneousMeter>,
}

pub open spec fn configs_view(s: Seq<plug::Config>) -> Seq<ConfigView> {
    s.map_values(|c: plug::Config| c@)
}

/// Whether a device's instantaneous power is polled.
pub open spec fn polls_instantaneously(c: ConfigView) -> bool {
    c.instantaneous_meter_interval_in_s >= 0
}

/// The devices, in order, whose instantaneous power is polled.
pub open spec fn instantaneous_devices(s: Seq<ConfigView>) -> Seq<ConfigView> {
    s.filter(|c: ConfigView| polls_instantaneously(c))
}

pub open spec fn minute_configs(s: Seq<MinuteMeter>) -> Seq<ConfigView> {
    s.map_values(|m: MinuteMeter| m.meter.config@)
}

pub open spec fn instantaneous_configs(s: Seq<InstantaneousMeter>) -> Seq<ConfigView> {
    s.map_values(|m: InstantaneousMeter| m.meter.config@)
}

impl Config {
    /// Network timeout of a poll, in milliseconds
    pub fn timeout(&self) -> (r: u64)
        ensures
            r == self.network_timeout_ms,
    {
        self.network_timeout_ms
    }

    /// The metering loops to run: one minute loop per device, and an
    /// instantaneous loop per device whose interval is not negative.
    pub fn meters(&self) -> (r: Meters)
        ensures
            minute_configs(r.minute@) == configs_view(self.shelly_plugs@),
            instantaneous_configs(r.instantaneous@) == instantaneous_devices(
                configs_view(self.shelly_plugs@),
            ),
            forall|i: int|
                0 <= i < r.minute@.len() ==> #[trigger] r.minute@[i].meter.timeout
                    == self.network_timeout_ms,
            forall|i: int|
                0 <= i < r.instantaneous@.len() ==> #[trigger] r.instantaneous@[i].meter.timeout
                    == self.network_timeout_ms && Some(r.instantaneous@[i].interval)
                    == plug::interval_ms(
                    r.instantaneous@[i].meter.config.instantaneous_meter_interval_in_s,
                ),
    {
        let mut minute: Vec<MinuteMeter> = Vec::new();
        let mut instantaneous: Vec<InstantaneousMeter> = Vec::new();
        let n = self.shelly_plugs.len();
        let mut i: usize = 0;
        while i < n
            invariant
                n == self.shelly_plugs@.len(),
                i <= n,
                minute_configs(minute@) == configs_view(self.shelly_plugs@.take(i as int)),
                instantaneous_configs(instantaneous@) == instantaneous_devices(
                    configs_view(self.shelly_plugs@.take(i as int)),
                ),
                forall|j: int|
                    0 <= j < minute@.len() ==> #[trigger] minute@[j].meter.timeout
                        == self.network_timeout_ms,
                forall|j: int|
                    0 <= j < instantaneous@.len() ==> #[trigger] instantaneous@[j].meter.timeout
                        == self.network_timeout_ms && Some(instantaneous@[j].interval)
                        == plug::interval_ms(
                        instantaneous@[j].meter.config.instantaneous_meter_interval_in_s,
                    ),
            decreases n - i,
        {
            let c = &self.shelly_plugs[i];
            let ghost before = configs_view(self.shelly_plugs@.take(i as int));
            proof {
                assert(configs_view(self.shelly_plugs@.take(i as int + 1)) =~= before.push(c@));
                before.lemma_filter_push(c@, |c: ConfigView| polls_instantaneously(c));
            }
            let ghost old_minute = minute@;
            let ghost old_inst = instantaneous@;
            minute.push(MinuteMeter::new(c, self.network_timeout_ms));
            assert(minute_configs(minute@) =~= minute_configs(old_minute).push(c@));
            match InstantaneousMeter::new(c, self.network_timeout_ms) {
                Some(im) => {
                    let ghost g = im;
                    instantaneous.push(im);
                    assert forall|j: int| 0 <= j < instantaneous@.len() implies #[trigger] instantaneous@[j].meter.timeout
                        == self.network_timeout_ms && Some(instantaneous@[j].interval)
                        == plug::interval_ms(
                        instantaneous@[j].meter.config.instantaneous_meter_interval_in_s,
                    ) by {
                        if j < old_inst.len() {
                            assert(instantaneous@[j] == old_inst[j]);
                        } else {
                            assert(instantaneous@[j] == g);
                        }
                    }
                    assert(instantaneous_configs(instantaneous@) =~= instantaneous_configs(
                        old_inst,
                    ).push(c@));
                },
                None => {},
            }
            // Both arms meet at this point; the solver needs the invariant's
            // quantifier restated here, where the two paths join.
            assert(forall|j: int|
                0 <= j < instantaneous@.len() ==> #[trigger] instantaneous@[j].meter.timeout
                    == self.network_timeout_ms && Some(instantaneous@[j].interval)
                    == plug::interval_ms(
                    instantaneous@[j].meter.config.instantaneous_meter_interval_in_s,
                ));
            i += 1;
        }
        assert(self.shelly_plugs@.take(n as int) =~= self.shelly_plugs@);
        Meters { minute, instantaneous }
    }
}

/// A device whose instantaneous interval is negative gets no instantaneous
/// loop, whatever the other devices are.
pub proof fn lemma_disabled_device_not_polled(devices: Seq<ConfigView>, c: ConfigView)
    requires
        c.instantaneous_meter_interval_in_s < 0,
    ensures
        !instantaneous_devices(devices).contains(c),
{
    broadcast use vstd::seq_lib::group_filter_ensures;

    if instantaneous_devices(devices).contains(c) {
        let k = choose|k: int| 0 <= k < instantaneous_devices(devices).len() && instantaneous_devices(devices)[k] == c;
        assert(polls_instantaneously(instantaneous_devices(devices)[k]));
    }
}

} // verus!
