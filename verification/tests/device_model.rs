use fritzapi::devices::{classify, AVMDevice, Alert, PowerMeter, RawDevice, Switch, Temperature};

fn plug_record() -> RawDevice {
    RawDevice {
        identifier: "11657 0272633".to_string(),
        productname: "FRITZ!DECT 200".to_string(),
        name: "Office".to_string(),
        switch: Some(Switch { state: true }),
        powermeter: Some(PowerMeter { energy: 1234, power: 2470, voltage: 230450 }),
        temperature: Some(Temperature { celsius: "215".to_string() }),
        alert: Some(Alert { state: true, lastalertchgtimestamp: 1_600_000_000 }),
    }
}

#[test]
fn dect200_with_all_subrecords_classifies_as_plug() {
    let dev = classify(plug_record());
    match dev {
        AVMDevice::FritzDect2XX(p) => {
            assert_eq!(p.identifier, "11657 0272633");
            assert_eq!(p.productname, "FRITZ!DECT 200");
            assert_eq!(p.name, "Office");
            assert!(p.on);
            assert_eq!(p.voltage_millivolts, 230450);
            assert_eq!(p.power_milliwatts, 2470);
            assert_eq!(p.energy_in_watt_h, 1234);
            assert_eq!(p.deci_celsius, 215);
            // the raw milli- and deci-units scale by 0.001 resp. 0.1 into
            // display units
            assert!((p.voltage_millivolts as f32 * 0.001 - 230.45).abs() < 1e-3);
            assert!((p.power_milliwatts as f32 * 0.001 - 2.47).abs() < 1e-4);
            assert!((p.deci_celsius as f32 * 0.1 - 21.5).abs() < 1e-4);
        },
        AVMDevice::Other(_) => panic!("expected a plug"),
    }
}

#[test]
fn record_missing_one_subrecord_stays_unclassified() {
    let mut raw = plug_record();
    raw.switch = None;
    match classify(raw) {
        AVMDevice::FritzDect2XX(_) => panic!("strict rule: all four sub-records are required"),
        AVMDevice::Other(_) => {},
    }
}

#[test]
fn foreign_product_stays_unclassified() {
    let mut raw = plug_record();
    raw.productname = "HAN-FUN".to_string();
    match classify(raw) {
        AVMDevice::FritzDect2XX(_) => panic!("prefix rule must reject this product"),
        AVMDevice::Other(_) => {},
    }
}

#[test]
fn unclassified_record_round_trips_unchanged() {
    let mut raw = plug_record();
    raw.powermeter = None;
    let dev = classify(raw);
    assert_eq!(dev.id(), "11657 0272633");
    assert_eq!(dev.name(), "Office");
    assert_eq!(dev.productname(), "FRITZ!DECT 200");
    assert!(dev.is_alert());
    assert_eq!(dev.last_alert_change_epoch(), 1_600_000_000);
    match dev {
        AVMDevice::Other(r) => {
            assert_eq!(r.identifier, "11657 0272633");
            assert_eq!(r.productname, "FRITZ!DECT 200");
            assert_eq!(r.name, "Office");
            assert!(r.switch.is_some());
            assert!(r.powermeter.is_none());
            assert!(r.temperature.is_some());
            let alert = r.alert.expect("alert sub-record must survive");
            assert!(alert.state);
            assert_eq!(alert.lastalertchgtimestamp, 1_600_000_000);
        },
        AVMDevice::FritzDect2XX(_) => panic!("expected the record to stay unclassified"),
    }
}

#[test]
fn plug_accessors_answer_from_the_record() {
    let dev = classify(plug_record());
    assert_eq!(dev.id(), "11657 0272633");
    assert_eq!(dev.name(), "Office");
    assert_eq!(dev.productname(), "FRITZ!DECT 200");
    assert!(dev.is_on());
    assert_eq!(dev.state(), "on");
    // the plug variant does not keep the alert sub-record
    assert!(!dev.is_alert());
    assert_eq!(dev.last_alert_change_epoch(), 0);
}

#[test]
fn unclassified_device_answers_conservatively() {
    let mut raw = plug_record();
    raw.temperature = None;
    raw.alert = None;
    let dev = classify(raw);
    assert!(!dev.is_on());
    assert_eq!(dev.state(), "");
    assert!(!dev.is_alert());
    assert_eq!(dev.last_alert_change_epoch(), 0);
}

#[test]
fn off_plug_reports_off() {
    let mut raw = plug_record();
    raw.switch = Some(Switch { state: false });
    let dev = classify(raw);
    assert!(!dev.is_on());
    assert_eq!(dev.state(), "off");
}

#[test]
fn unparsable_temperature_reads_zero() {
    let mut raw = plug_record();
    raw.temperature = Some(Temperature { celsius: "warm".to_string() });
    match classify(raw) {
        AVMDevice::FritzDect2XX(p) => assert_eq!(p.deci_celsius, 0),
        AVMDevice::Other(_) => panic!("expected a plug"),
    }
}
