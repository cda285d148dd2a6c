use fritzapi::api::{
    fetch_device_stats, get_token, request_response, token_from_info, Gateway, SessionInfo, Token,
};
use fritzapi::devices::{
    classify, AVMDevice, Alert, DeviceStats, PowerMeter, RawDevice, StatsKind, Switch, Temperature,
};
use fritzapi::error::FritzError;

/// A scripted stand-in for the HTTP transport and the XML collaborator:
/// records every GET, answers with scripted bodies, and hands out scripted
/// parse results.
struct FakeGateway {
    bodies: Vec<Result<String, FritzError>>,
    infos: Vec<SessionInfo>,
    devices: Vec<RawDevice>,
    stats: Vec<DeviceStats>,
    parse_fails: bool,
    get_calls: Vec<(String, Vec<(String, String)>)>,
    info_calls: usize,
}

impl FakeGateway {
    fn new() -> FakeGateway {
        FakeGateway {
            bodies: Vec::new(),
            infos: Vec::new(),
            devices: Vec::new(),
            stats: Vec::new(),
            parse_fails: false,
            get_calls: Vec::new(),
            info_calls: 0,
        }
    }

    fn with_infos(infos: Vec<SessionInfo>) -> FakeGateway {
        let mut gw = FakeGateway::new();
        gw.infos = infos;
        gw
    }
}

fn info(challenge: &str, sid: &str) -> SessionInfo {
    SessionInfo { challenge: challenge.to_string(), sid: sid.to_string() }
}

impl Gateway for FakeGateway {
    fn get(&mut self, url: &str, query: &Vec<(String, String)>) -> Result<String, FritzError> {
        self.get_calls.push((url.to_string(), query.clone()));
        let i = self.get_calls.len() - 1;
        if i < self.bodies.len() {
            self.bodies[i].clone()
        } else {
            Ok(String::new())
        }
    }

    fn parse_session_info(&mut self, _xml: &str) -> Result<SessionInfo, FritzError> {
        if self.parse_fails {
            return Err(FritzError::ParseError("malformed session info".to_string()));
        }
        let i = self.info_calls;
        self.info_calls += 1;
        let entry = &self.infos[i];
        Ok(SessionInfo { challenge: entry.challenge.clone(), sid: entry.sid.clone() })
    }

    fn parse_device_list(&mut self, _xml: &str) -> Result<Vec<RawDevice>, FritzError> {
        if self.parse_fails {
            return Err(FritzError::ParseError("malformed device list".to_string()));
        }
        Ok(std::mem::take(&mut self.devices))
    }

    fn parse_device_stats(&mut self, _xml: &str) -> Result<Vec<DeviceStats>, FritzError> {
        if self.parse_fails {
            return Err(FritzError::ParseError("malformed stats".to_string()));
        }
        Ok(std::mem::take(&mut self.stats))
    }
}

fn some_token() -> Token {
    token_from_info("fritz.box", &info("", "abcdef0123456789")).expect("non-sentinel sid")
}

fn plug_record(id: &str, on: bool) -> RawDevice {
    RawDevice {
        identifier: id.to_string(),
        productname: "FRITZ!DECT 200".to_string(),
        name: "Office".to_string(),
        switch: Some(Switch { state: on }),
        powermeter: Some(PowerMeter { energy: 1234, power: 2470, voltage: 230450 }),
        temperature: Some(Temperature { celsius: "215".to_string() }),
        alert: Some(Alert { state: false, lastalertchgtimestamp: 0 }),
    }
}

#[test]
fn existing_session_short_circuits_without_second_request() {
    let mut gw = FakeGateway::with_infos(vec![info("irrelevant", "abcdef0123456789")]);
    let token = get_token(&mut gw, "fritz.box", "admin", "pw").expect("existing session");
    assert_eq!(token.sid(), "abcdef0123456789");
    assert_eq!(token.host(), "fritz.box");
    // exactly one request went out: no credentials were sent
    assert_eq!(gw.get_calls.len(), 1);
    assert_eq!(gw.get_calls[0].0, "http://fritz.box/login_sid.lua");
    assert!(gw.get_calls[0].1.is_empty());
}

#[test]
fn sentinel_after_login_attempt_is_a_login_error() {
    let mut gw = FakeGateway::with_infos(vec![
        info("foo", "0000000000000000"),
        info("foo", "0000000000000000"),
    ]);
    let err = get_token(&mut gw, "fritz.box", "admin", "mühe").expect_err("login must fail");
    assert!(matches!(err, FritzError::LoginError(_)));
    assert_eq!(gw.get_calls.len(), 2);
    // the second request carried the user name and the computed response
    let expected = request_response("mühe", "foo");
    assert_eq!(
        gw.get_calls[1].0,
        format!("http://fritz.box/login_sid.lua?username=admin&response={}", expected)
    );
}

#[test]
fn fresh_sid_after_login_attempt_is_accepted() {
    let mut gw = FakeGateway::with_infos(vec![
        info("foo", "0000000000000000"),
        info("foo", "cafe012345678901"),
    ]);
    let token = get_token(&mut gw, "fritz.box", "admin", "pw").expect("login must succeed");
    assert_eq!(token.sid(), "cafe012345678901");
    assert_eq!(token.host(), "fritz.box");
    assert_eq!(gw.get_calls.len(), 2);
}

#[test]
fn transport_failure_is_surfaced_unmodified() {
    let mut gw = FakeGateway::new();
    gw.bodies = vec![Err(FritzError::TransportError("connection refused".to_string()))];
    let err = get_token(&mut gw, "fritz.box", "admin", "pw").expect_err("transport failed");
    match err {
        FritzError::TransportError(msg) => assert_eq!(msg, "connection refused"),
        other => panic!("expected a transport error, got {:?}", other),
    }
}

#[test]
fn parse_failure_is_surfaced_unmodified() {
    let mut gw = FakeGateway::new();
    gw.parse_fails = true;
    let err = get_token(&mut gw, "fritz.box", "admin", "pw").expect_err("parsing failed");
    assert!(matches!(err, FritzError::ParseError(_)));
}

#[test]
fn list_classifies_in_gateway_order() {
    let mut gw = FakeGateway::new();
    gw.devices = vec![plug_record("plug-1", true), {
        let mut other = plug_record("lamp-2", false);
        other.productname = "HAN-FUN".to_string();
        other
    }];
    let token = some_token();
    let devices = AVMDevice::list(&mut gw, &token).expect("listing succeeds");
    assert_eq!(devices.len(), 2);
    assert_eq!(devices[0].id(), "plug-1");
    assert!(matches!(&devices[0], AVMDevice::FritzDect2XX(_)));
    assert_eq!(devices[1].id(), "lamp-2");
    assert!(matches!(&devices[1], AVMDevice::Other(_)));
    // the listing command went to the control endpoint with the session id
    assert_eq!(gw.get_calls.len(), 1);
    assert_eq!(gw.get_calls[0].0, "http://fritz.box/webservices/homeautoswitch.lua");
    let query = &gw.get_calls[0].1;
    assert_eq!(query.len(), 2);
    assert_eq!(query[0], ("switchcmd".to_string(), "getdevicelistinfos".to_string()));
    assert_eq!(query[1], ("sid".to_string(), "abcdef0123456789".to_string()));
}

#[test]
fn turn_on_leaves_the_in_memory_device_stale() {
    let mut gw = FakeGateway::new();
    let token = some_token();
    let mut dev = classify(plug_record("plug-1", false));
    assert!(!dev.is_on());
    dev.turn_on(&mut gw, &token).expect("command accepted");
    // the command went out, but the in-memory state is stale until re-listed
    assert!(!dev.is_on());
    let query = &gw.get_calls[0].1;
    assert_eq!(query.len(), 3);
    assert_eq!(query[0], ("switchcmd".to_string(), "setswitchon".to_string()));
    assert_eq!(query[1], ("sid".to_string(), "abcdef0123456789".to_string()));
    assert_eq!(query[2], ("ain".to_string(), "plug-1".to_string()));
}

#[test]
fn turn_off_and_toggle_target_the_device() {
    let mut gw = FakeGateway::new();
    let token = some_token();
    let mut dev = classify(plug_record("plug-9", true));
    dev.turn_off(&mut gw, &token).expect("command accepted");
    assert!(dev.is_on(), "state is only refreshed by a fresh listing");
    dev.toggle(&mut gw, &token).expect("command accepted");
    assert!(dev.is_on(), "state is only refreshed by a fresh listing");
    assert_eq!(gw.get_calls.len(), 2);
    assert_eq!(gw.get_calls[0].1[0], ("switchcmd".to_string(), "setswitchoff".to_string()));
    assert_eq!(gw.get_calls[1].1[0], ("switchcmd".to_string(), "setswitchtoggle".to_string()));
    assert_eq!(gw.get_calls[1].1[2], ("ain".to_string(), "plug-9".to_string()));
}

#[test]
fn stats_are_fetched_for_the_device_identifier() {
    let mut gw = FakeGateway::new();
    gw.stats = vec![DeviceStats { kind: StatsKind::Temperature, values: vec![215, 210] }];
    let token = some_token();
    let dev = classify(plug_record("plug-1", true));
    let stats = dev.fetch_device_stats(&mut gw, &token).expect("stats fetched");
    assert_eq!(stats.len(), 1);
    assert!(matches!(stats[0].kind, StatsKind::Temperature));
    assert_eq!(stats[0].values, vec![215, 210]);
    let query = &gw.get_calls[0].1;
    assert_eq!(query[0], ("switchcmd".to_string(), "getbasicdevicestats".to_string()));
    assert_eq!(query[2], ("ain".to_string(), "plug-1".to_string()));
}

#[test]
fn module_level_stats_use_the_given_identifier() {
    let mut gw = FakeGateway::new();
    gw.stats = vec![DeviceStats { kind: StatsKind::Power, values: vec![2470] }];
    let token = some_token();
    let stats = fetch_device_stats(&mut gw, "sw-7", &token).expect("stats fetched");
    assert_eq!(stats.len(), 1);
    assert_eq!(gw.get_calls[0].1[2], ("ain".to_string(), "sw-7".to_string()));
}
