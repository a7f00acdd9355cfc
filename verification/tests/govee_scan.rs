use cute_lights::govee::{
    DeviceColor, DeviceStatus, GoveeIntegration, GoveeLight, Response, ScanCollector,
    CONTROL_PORT, LISTEN_PORT, MULTICAST_PORT, MULTICAST_TTL,
};
use cute_lights::config::CuteLightsConfig;
use cute_lights::LightError;

fn scan_datagram(ip: &str, mac: &str) -> String {
    format!(
        "{{\"msg\":{{\"cmd\":\"scan\",\"data\":{{\"ip\":\"{ip}\",\"device\":\"{mac}\",\
         \"sku\":\"H6159\",\"bleVersionHard\":\"1\",\"bleVersionSoft\":\"2\",\
         \"wifiVersionHard\":\"3\",\"wifiVersionSoft\":\"4\"}}}}}}"
    )
}

#[test]
fn scan_collector_records_configured_addresses() {
    let mut collector = ScanCollector::new(vec![String::from("10.0.0.9")]);
    let done = collector.on_datagram(&scan_datagram("10.0.0.9", "AA:BB"));
    assert!(done);
    let found = collector.finish();
    assert_eq!(found, vec![(String::from("10.0.0.9"), String::from("AA:BB"))]);
}

#[test]
fn scan_collector_ignores_unknown_addresses() {
    let mut collector = ScanCollector::new(vec![String::from("10.0.0.9")]);
    let done = collector.on_datagram(&scan_datagram("10.0.0.7", "XX"));
    assert!(!done);
    assert!(collector.finish().is_empty());
}

#[test]
fn scan_collector_ignores_malformed_datagrams() {
    let mut collector = ScanCollector::new(vec![String::from("10.0.0.9")]);
    assert!(!collector.on_datagram("not json at all"));
    assert!(!collector.on_datagram("{\"msg\":{\"cmd\":\"other\",\"data\":{}}}"));
    assert!(collector.finish().is_empty());
}

#[test]
fn scan_timeout_with_empty_network_yields_empty_list() {
    // The success path of a timed-out scan: nothing was heard, nothing is
    // returned, and no error arises.
    let collector = ScanCollector::new(vec![String::from("10.0.0.9")]);
    assert_eq!(collector.finish(), Vec::<(String, String)>::new());
}

#[test]
fn scan_collector_completes_when_all_addresses_answered() {
    let mut collector =
        ScanCollector::new(vec![String::from("10.0.0.1"), String::from("10.0.0.2")]);
    assert!(!collector.on_datagram(&scan_datagram("10.0.0.1", "A")));
    assert!(collector.on_datagram(&scan_datagram("10.0.0.2", "B")));
    assert_eq!(collector.finish().len(), 2);
}

#[test]
fn parse_dev_status_response() {
    let text = "{\"msg\":{\"cmd\":\"devStatus\",\"data\":{\"onOff\":1,\"brightness\":80,\
                \"color\":{\"r\":5,\"g\":6,\"b\":7},\"colorTemInKelvin\":7200}}}";
    let message = cute_lights::govee::parse_response(text).unwrap();
    match message.msg {
        Response::DevStatus(status) => {
            assert!(status.on);
            assert_eq!(status.brightness, 80);
            assert_eq!(status.color, DeviceColor { r: 5, g: 6, b: 7 });
            assert_eq!(status.color_temperature_kelvin, 7200);
        }
        _ => panic!("expected a status response"),
    }
}

#[test]
fn parse_response_rejects_unknown_commands() {
    assert!(cute_lights::govee::parse_response("{\"msg\":{\"cmd\":\"nope\",\"data\":{}}}").is_err());
    assert!(cute_lights::govee::parse_response("{}").is_err());
}

#[test]
fn from_status_builds_light() {
    let status = DeviceStatus {
        on: true,
        brightness: 80,
        color: DeviceColor { r: 1, g: 2, b: 3 },
        color_temperature_kelvin: 7200,
    };
    let light =
        GoveeLight::from_status(String::from("10.0.0.9"), String::from("MAC"), &status).unwrap();
    assert!(light.is_on);
    assert_eq!(light.brightness, 80);
    assert_eq!((light.red, light.green, light.blue), (1, 2, 3));
    assert_eq!(light.qualified_id(), "govee::MAC");
}

#[test]
fn from_status_rejects_overrange_brightness() {
    let status = DeviceStatus {
        on: true,
        brightness: 101,
        color: DeviceColor { r: 0, g: 0, b: 0 },
        color_temperature_kelvin: 7200,
    };
    let outcome = GoveeLight::from_status(String::from("ip"), String::from("m"), &status);
    assert!(matches!(outcome, Err(LightError::Decode)));
}

#[test]
fn from_status_response_end_to_end() {
    let text = "{\"msg\":{\"cmd\":\"devStatus\",\"data\":{\"onOff\":0,\"brightness\":10,\
                \"color\":{\"r\":0,\"g\":0,\"b\":0},\"colorTemInKelvin\":0}}}";
    let light = GoveeLight::from_status_response(
        String::from("10.0.0.9"),
        String::from("M"),
        text.as_bytes(),
    )
    .unwrap();
    assert!(!light.is_on);
    assert_eq!(light.brightness, 10);
}

#[test]
fn govee_cache_updates_only_on_success() {
    let status = DeviceStatus {
        on: false,
        brightness: 0,
        color: DeviceColor { r: 0, g: 0, b: 0 },
        color_temperature_kelvin: 0,
    };
    let mut light =
        GoveeLight::from_status(String::from("ip"), String::from("m"), &status).unwrap();
    assert_eq!(light.finish_set_on(true, false), Err(LightError::Transport));
    assert!(!light.is_on);
    assert!(light.finish_set_on(true, true).is_ok());
    assert!(light.is_on);
    assert!(light.finish_set_color(9, 8, 7, true).is_ok());
    assert_eq!((light.red, light.green, light.blue), (9, 8, 7));
}

#[test]
fn govee_display_name() {
    let status = DeviceStatus {
        on: false,
        brightness: 0,
        color: DeviceColor { r: 0, g: 0, b: 0 },
        color_temperature_kelvin: 0,
    };
    let light = GoveeLight::from_status(String::from("ip"), String::from("M"), &status).unwrap();
    assert_eq!(light.display_name(), "Govee Light (M)");
}

#[test]
fn udp_constants_match_the_wire_contract() {
    assert_eq!(MULTICAST_PORT, 4001);
    assert_eq!(LISTEN_PORT, 4002);
    assert_eq!(CONTROL_PORT, 4003);
    assert_eq!(MULTICAST_TTL, 2);
    assert_eq!(cute_lights::govee::multicast_group(), "239.255.255.250");
}

#[test]
fn govee_preflight_follows_enabled_flag() {
    let mut config = CuteLightsConfig::empty();
    assert!(!GoveeIntegration::preflight(&config));
    config.govee.enabled = true;
    assert!(GoveeIntegration::preflight(&config));
}
