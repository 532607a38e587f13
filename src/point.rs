use vstd::prelude::*;
use vstd::string::StringExecFns;

verus! {

/// What a data point measures. Each kind has a fixed unit and a fixed
/// name under which it is written to the sink.
#[derive(Clone, Copy, Debug, PartialEq, Eq, Structural)]
pub enum Measurement {
    /// Energy drawn during the last whole minute, in watt-hours.
    LastMinuteConsumptionInWh,
    /// Power drawn at the moment of the poll, in watts.
    InstantaneousConsumptionInW,
    /// Energy drawn since the device last restarted, in watt-hours.
    ConsumptionSinceRebootInWh,
}

/// The series name of a kind of measurement.
pub open spec fn series_name(m: Measurement) -> Seq<char> {
    match m {
        Measurement::LastMinuteConsumptionInWh => "last_minute_consumption_in_wh"@,
        Measurement::InstantaneousConsumptionInW => "instantaneous_consumption_in_w"@,
        Measurement::ConsumptionSinceRebootInWh => "consumption_since_reboot_in_wh"@,
    }
}

impl Measurement {
    /// The series name under which data of this kind is written.
    pub fn name(&self) -> (r: String)
        ensures
            r@ == series_name(*self),
    {
        match self {
            Measurement::LastMinuteConsumptionInWh => {
                let s = "last_minute_consumption_in_wh";
                proof {
                    reveal_strlit("last_minute_consumption_in_wh");
                }
                String::from_str(s)
            },
            Measurement::InstantaneousConsumptionInW => {
                let s = "instantaneous_consumption_in_w";
                proof {
                    reveal_strlit("instantaneous_consumption_in_w");
                }
                String::from_str(s)
            },
            Measurement::ConsumptionSinceRebootInWh => {
                let s = "consumption_since_reboot_in_wh";
                proof {
                    reveal_strlit("consumption_since_reboot_in_wh");
                }
                String::from_str(s)
            },
        }
    }
}

/// One timestamped measurement of one device, bound for the sink.
pub struct Datum {
    /// Collection time, in seconds since the UNIX epoch (UTC).
    pub measured_on: i64,
    pub measurement: Measurement,
    pub device_name: String,
    pub device_host: String,
    /// The measured value in millionths of the unit of `measurement`.
    pub value: i64,
}

/// A data point as a mathematical value.
pub struct DatumView {
    pub measured_on: i64,
    pub measurement: Measurement,
    pub device_name: Seq<char>,
    pub device_host: Seq<char>,
    pub value: int,
}

impl View for Datum {
    type V = DatumView;

    open spec fn view(&self) -> DatumView {
        DatumView {
            measured_on: self.measured_on,
            measurement: self.measurement,
            device_name: self.device_name@,
            device_host: self.device_host@,
            value: self.value as int,
        }
    }
}

} // verus!
