use vstd::prelude::*;

use crate::api::{self, Commands, Gateway, Token};
use crate::encoding::{has_prefix, parse_decimal, parse_decimal_or_zero, starts_with_prefix};
use crate::encoding::lemma_parse_decimal_bounds;
use crate::error::FritzError;

verus! {

// ---------------------------------------------------------------------------
// Raw device records, as the XML collaborator hands them over.
// ---------------------------------------------------------------------------

/// Switch sub-record of a raw device record.
#[derive(Debug)]
pub struct Switch {
    pub state: bool,
}

/// Power-meter sub-record: cumulative energy in watt-hours, momentary power
/// in milliwatts, voltage in millivolts.
#[derive(Debug)]
pub struct PowerMeter {
    pub energy: u32,
    pub power: u32,
    pub voltage: u32,
}

/// Temperature sub-record: the reading as a decimal string in tenths of a
/// degree celsius.
#[derive(Debug)]
pub struct Temperature {
    pub celsius: String,
}

/// Alert sub-record: the alert state and the unix epoch second of its last
/// change.
#[derive(Debug)]
pub struct Alert {
    pub state: bool,
    pub lastalertchgtimestamp: u32,
}

/// One raw device record of a gateway device-list response. The identifier
/// is the stable key for all subsequent operations on the device.
#[derive(Debug)]
pub struct RawDevice {
    pub identifier: String,
    pub productname: String,
    pub name: String,
    pub switch: Option<Switch>,
    pub powermeter: Option<PowerMeter>,
    pub temperature: Option<Temperature>,
    pub alert: Option<Alert>,
}

/// The category of one basic-stats series.
#[derive(Debug, Clone, Copy, PartialEq, Eq, Structural)]
pub enum StatsKind {
    Temperature,
    Voltage,
    Power,
    Energy,
}

/// One series of a basic-stats response, as the XML collaborator hands it
/// over: the raw values in the gateway's own units.
#[derive(Debug)]
pub struct DeviceStats {
    pub kind: StatsKind,
    pub values: Vec<i64>,
}

// ---------------------------------------------------------------------------
// Classification of raw records into typed devices.
// ---------------------------------------------------------------------------

/// A smart plug of the recognized plug family, with its telemetry kept in
/// the gateway's raw integer units: voltage in millivolts, power in
/// milliwatts, energy in watt-hours, temperature in tenths of a degree
/// celsius. Presentation layers divide by 1000 resp. 10.
#[derive(Debug)]
pub struct FritzDect2XX {
    pub identifier: String,
    pub productname: String,
    pub name: String,
    pub on: bool,
    pub voltage_millivolts: u32,
    pub power_milliwatts: u32,
    pub energy_in_watt_h: u32,
    pub deci_celsius: i64,
}

/// A typed device: either a recognized smart plug, or any other record kept
/// as it came.
#[derive(Debug)]
pub enum AVMDevice {
    FritzDect2XX(FritzDect2XX),
    Other(RawDevice),
}

/// The product-name prefix of the recognized plug family.
pub open spec fn plug_prefix() -> Seq<char> {
    "FRITZ!DECT 2"@
}

/// A record classifies as a plug exactly when its product name carries the
/// plug-family prefix and the switch, power-meter, temperature and alert
/// sub-records are all present at once.
pub open spec fn is_plug_record(dev: RawDevice) -> bool {
    &&& has_prefix(dev.productname@, plug_prefix())
    &&& dev.switch is Some
    &&& dev.powermeter is Some
    &&& dev.temperature is Some
    &&& dev.alert is Some
}

/// Where every raw device record goes: a plug record becomes a
/// `FritzDect2XX` carrying its switch state and raw telemetry; every other
/// record is kept unchanged under `Other`.
pub open spec fn classify_spec(dev: RawDevice) -> AVMDevice {
    if is_plug_record(dev) {
        AVMDevice::FritzDect2XX(
            FritzDect2XX {
                identifier: dev.identifier,
                productname: dev.productname,
                name: dev.name,
                on: dev.switch->0.state,
                voltage_millivolts: dev.powermeter->0.voltage,
                power_milliwatts: dev.powermeter->0.power,
                energy_in_watt_h: dev.powermeter->0.energy,
                deci_celsius: parse_decimal(dev.temperature->0.celsius@) as i64,
            },
        )
    } else {
        AVMDevice::Other(dev)
    }
}

/// True iff `a` is the classification of some raw record: what every
/// element of a catalog listing satisfies. In particular, no unclassified
/// device of a listing meets the plug rule.
pub open spec fn is_classified(a: AVMDevice) -> bool {
    exists|d: RawDevice| a == classify_spec(d)
}

/// Classification is total and pure: every record yields exactly one
/// variant, the plug variant exactly on the plug rule, a record missed by
/// the rule is carried over unchanged with no field lost, and a plug keeps
/// its identity and raw readings.
pub proof fn lemma_classification_total(dev: RawDevice)
    ensures
        classify_spec(dev) is FritzDect2XX <==> is_plug_record(dev),
        classify_spec(dev) is Other <==> !is_plug_record(dev),
        !is_plug_record(dev) ==> classify_spec(dev) == AVMDevice::Other(dev),
        is_plug_record(dev) ==> {
            let p = classify_spec(dev)->FritzDect2XX_0;
            &&& p.identifier == dev.identifier
            &&& p.productname == dev.productname
            &&& p.name == dev.name
            &&& p.on == dev.switch->0.state
            &&& p.voltage_millivolts == dev.powermeter->0.voltage
            &&& p.power_milliwatts == dev.powermeter->0.power
            &&& p.energy_in_watt_h == dev.powermeter->0.energy
            &&& p.deci_celsius == parse_decimal(dev.temperature->0.celsius@) as i64
        },
{
}

/// Classifies one raw record.
pub fn classify(dev: RawDevice) -> (r: AVMDevice)
    ensures
        r == classify_spec(dev),
{
    let ghost gdev = dev;
    let plug = starts_with_prefix(dev.productname.as_str(), "FRITZ!DECT 2") && dev.switch.is_some()
        && dev.powermeter.is_some() && dev.temperature.is_some() && dev.alert.is_some();
    if plug {
        let RawDevice { identifier, productname, name, switch, powermeter, temperature, alert: _ } =
            dev;
        let sw = switch.unwrap();
        let pm = powermeter.unwrap();
        let t = temperature.unwrap();
        let deci = parse_decimal_or_zero(t.celsius.as_str());
        proof {
            lemma_parse_decimal_bounds(t.celsius@);
        }
        AVMDevice::FritzDect2XX(
            FritzDect2XX {
                identifier,
                productname,
                name,
                on: sw.state,
                voltage_millivolts: pm.voltage,
                power_milliwatts: pm.power,
                energy_in_watt_h: pm.energy,
                deci_celsius: deci,
            },
        )
    } else {
        AVMDevice::Other(dev)
    }
}

/// Classifies every record of a device-list response, in order, dropping
/// and duplicating none.
pub fn classify_all(devs: Vec<RawDevice>) -> (r: Vec<AVMDevice>)
    ensures
        r@.len() == devs@.len(),
        forall|i: int| 0 <= i < devs@.len() ==> r@[i] == classify_spec(devs@[i]),
{
    let ghost orig = devs@;
    let mut rest = devs;
    let mut out: Vec<AVMDevice> = Vec::new();
    while rest.len() > 0
        invariant
            out@.len() + rest@.len() == orig.len(),
            rest@ == orig.skip(out@.len() as int),
            forall|i: int| 0 <= i < out@.len() ==> out@[i] == classify_spec(orig[i]),
        decreases rest@.len(),
    {
        let ghost k = out@.len() as int;
        let d = rest.remove(0);
        proof {
            assert(d == orig[k]);
            assert(rest@ =~= orig.skip(k + 1));
        }
        out.push(classify(d));
    }
    out
}

// ---------------------------------------------------------------------------
// The uniform behavioral interface over both variants.
// ---------------------------------------------------------------------------

impl AVMDevice {
    /// Fetches the device list through the gateway and classifies each raw
    /// record independently, in the order the gateway returned them:
    /// whatever the gateway answered, every returned device is the
    /// classification of one of its raw records.
    pub fn list<G: Gateway>(gw: &mut G, token: &Token) -> (r: Result<Vec<AVMDevice>, FritzError>)
        ensures
            r matches Ok(v) ==> forall|i: int|
                0 <= i < v@.len() ==> is_classified(#[trigger] v@[i]),
    {
        let devices = match api::device_infos(gw, token) {
            Ok(d) => d,
            Err(e) => {
                return Err(e);
            },
        };
        let ghost raws = devices@;
        let out = classify_all(devices);
        proof {
            assert forall|i: int| 0 <= i < out@.len() implies is_classified(out@[i]) by {
                assert(out@[i] == classify_spec(raws[i]));
            }
        }
        Ok(out)
    }

    /// The identifier of the device, whichever variant holds it.
    pub open spec fn id_spec(&self) -> Seq<char> {
        match self {
            AVMDevice::FritzDect2XX(dev) => dev.identifier@,
            AVMDevice::Other(dev) => dev.identifier@,
        }
    }

    pub fn id(&self) -> (r: &str)
        ensures
            r@ == self.id_spec(),
    {
        match self {
            AVMDevice::FritzDect2XX(dev) => dev.identifier.as_str(),
            AVMDevice::Other(dev) => dev.identifier.as_str(),
        }
    }

    /// The friendly name of the device, whichever variant holds it.
    pub open spec fn name_spec(&self) -> Seq<char> {
        match self {
            AVMDevice::FritzDect2XX(dev) => dev.name@,
            AVMDevice::Other(dev) => dev.name@,
        }
    }

    pub fn name(&self) -> (r: &str)
        ensures
            r@ == self.name_spec(),
    {
        match self {
            AVMDevice::FritzDect2XX(dev) => dev.name.as_str(),
            AVMDevice::Other(dev) => dev.name.as_str(),
        }
    }

    /// The product name of the device, whichever variant holds it.
    pub open spec fn productname_spec(&self) -> Seq<char> {
        match self {
            AVMDevice::FritzDect2XX(dev) => dev.productname@,
            AVMDevice::Other(dev) => dev.productname@,
        }
    }

    pub fn productname(&self) -> (r: &str)
        ensures
            r@ == self.productname_spec(),
    {
        match self {
            AVMDevice::FritzDect2XX(dev) => dev.productname.as_str(),
            AVMDevice::Other(dev) => dev.productname.as_str(),
        }
    }

    /// True only for a plug whose recorded switch state is on; an
    /// unclassified device conservatively answers false.
    pub open spec fn is_on_spec(&self) -> bool {
        match self {
            AVMDevice::FritzDect2XX(dev) => dev.on,
            AVMDevice::Other(_) => false,
        }
    }

    pub fn is_on(&self) -> (r: bool)
        ensures
            r == self.is_on_spec(),
    {
        match self {
            AVMDevice::FritzDect2XX(dev) => dev.on,
            AVMDevice::Other(_) => false,
        }
    }

    /// Alert state as the record carried it: an unclassified device alerts
    /// exactly when its alert sub-record is present and set; a plug answers
    /// false, its alert record having been consumed by classification.
    pub open spec fn is_alert_spec(&self) -> bool {
        match self {
            AVMDevice::FritzDect2XX(_) => false,
            AVMDevice::Other(dev) => dev.alert is Some && dev.alert->0.state,
        }
    }

    pub fn is_alert(&self) -> (r: bool)
        ensures
            r == self.is_alert_spec(),
    {
        match self {
            AVMDevice::FritzDect2XX(_) => false,
            AVMDevice::Other(dev) => match &dev.alert {
                Some(alert) => alert.state,
                None => false,
            },
        }
    }

    /// The unix epoch second of the last alert change, zero when no alert
    /// sub-record is at hand.
    pub open spec fn last_alert_change_epoch_spec(&self) -> u32 {
        match self {
            AVMDevice::FritzDect2XX(_) => 0,
            AVMDevice::Other(dev) => if dev.alert is Some {
                dev.alert->0.lastalertchgtimestamp
            } else {
                0
            },
        }
    }

    pub fn last_alert_change_epoch(&self) -> (r: u32)
        ensures
            r == self.last_alert_change_epoch_spec(),
    {
        match self {
            AVMDevice::FritzDect2XX(_) => 0,
            AVMDevice::Other(dev) => match &dev.alert {
                Some(alert) => alert.lastalertchgtimestamp,
                None => 0,
            },
        }
    }

    /// "on" or "off" for a plug, the empty string for an unclassified
    /// device.
    pub open spec fn state_spec(&self) -> Seq<char> {
        match self {
            AVMDevice::FritzDect2XX(dev) => if dev.on {
                "on"@
            } else {
                "off"@
            },
            AVMDevice::Other(_) => ""@,
        }
    }

    pub fn state(&self) -> (r: &'static str)
        ensures
            r@ == self.state_spec(),
    {
        match self {
            AVMDevice::FritzDect2XX(dev) => if dev.on {
                "on"
            } else {
                "off"
            },
            AVMDevice::Other(_) => "",
        }
    }

    /// Fetches the basic statistics series for this device.
    pub fn fetch_device_stats<G: Gateway>(&self, gw: &mut G, token: &Token) -> (r: Result<
        Vec<DeviceStats>,
        FritzError,
    >) {
        api::fetch_device_stats(gw, self.id(), token)
    }

    /// Issues the switch-on command. The in-memory device is left exactly as
    /// it was: its recorded state goes stale, and only a fresh listing
    /// observes the change.
    pub fn turn_on<G: Gateway>(&mut self, gw: &mut G, token: &Token) -> (r: Result<
        (),
        FritzError,
    >)
        ensures
            *final(self) == *old(self),
    {
        match api::request(gw, Commands::SetSwitchOn, token, Some(self.id())) {
            Ok(_) => Ok(()),
            Err(e) => Err(e),
        }
    }

    /// Issues the switch-off command; the in-memory device is left exactly
    /// as it was.
    pub fn turn_off<G: Gateway>(&mut self, gw: &mut G, token: &Token) -> (r: Result<
        (),
        FritzError,
    >)
        ensures
            *final(self) == *old(self),
    {
        match api::request(gw, Commands::SetSwitchOff, token, Some(self.id())) {
            Ok(_) => Ok(()),
            Err(e) => Err(e),
        }
    }

    /// Issues the switch-toggle command; the in-memory device is left
    /// exactly as it was.
    pub fn toggle<G: Gateway>(&mut self, gw: &mut G, token: &Token) -> (r: Result<
        (),
        FritzError,
    >)
        ensures
            *final(self) == *old(self),
    {
        match api::request(gw, Commands::SetSwitchToggle, token, Some(self.id())) {
            Ok(_) => Ok(()),
            Err(e) => Err(e),
        }
    }
}

} // verus!
