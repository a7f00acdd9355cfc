use cute_lights::config::{CuteLightsConfig, HueConfig};
use cute_lights::hue::{pct_to_254, wire254_to_pct, HueIntegration, HueLight};
use cute_lights::LightError;

#[test]
fn brightness_scaling_matches_bridge_units() {
    // round(50/100 * 254) = 127
    assert_eq!(pct_to_254(50), 127);
    assert_eq!(pct_to_254(0), 0);
    assert_eq!(pct_to_254(100), 254);
}

#[test]
fn percentage_scaling_round_trips() {
    for p in 0..=100u64 {
        assert_eq!(wire254_to_pct(pct_to_254(p)), p);
    }
    for h in 0..=360u64 {
        assert_eq!(
            cute_lights::hue::wire65535_to_hue(cute_lights::hue::hue_to_65535(h)),
            h
        );
    }
}

#[test]
fn set_brightness_body_scales() {
    assert_eq!(HueLight::set_brightness_body(50), "{\"bri\":127}");
}

#[test]
fn set_on_body_text() {
    assert_eq!(HueLight::set_on_body(true), "{\"on\":true}");
    assert_eq!(HueLight::set_on_body(false), "{\"on\":false}");
}

#[test]
fn set_color_body_red_at_full_saturation() {
    // Red: hue 0, saturation 100% -> 254 wire units, lightness 50% -> 127.
    assert_eq!(
        HueLight::set_color_body(255, 0, 0),
        "{\"bri\":127,\"hue\":0,\"sat\":254}"
    );
}

fn sample_hue_light() -> HueLight {
    HueLight::from_record(
        String::from("7"),
        String::from("127.0.0.1:8080"),
        String::from("u"),
        String::from("Hallway"),
        true,
        254,
        0,
        254,
        true,
    )
    .unwrap()
}

#[test]
fn state_url_shape() {
    let light = sample_hue_light();
    assert_eq!(
        light.state_url(),
        "http://127.0.0.1:8080/api/u/lights/7/state"
    );
}

#[test]
fn from_record_scales_wire_values() {
    let light = sample_hue_light();
    assert_eq!(light.brightness, 100);
    // hue 0, sat 100, lightness 100 is white
    assert_eq!((light.red, light.green, light.blue), (255, 255, 255));
    assert!(light.supports_color);
}

#[test]
fn from_record_rejects_wire_values_out_of_range() {
    let mk = |bri: i64, hue: i64, sat: i64| {
        HueLight::from_record(
            String::from("1"),
            String::from("b"),
            String::from("u"),
            String::from("n"),
            false,
            bri,
            hue,
            sat,
            false,
        )
    };
    assert!(mk(255, 0, 0).is_err());
    assert!(mk(0, 65536, 0).is_err());
    assert!(mk(0, 0, 255).is_err());
    assert!(mk(254, 65535, 254).is_ok());
}

#[test]
fn hue_cache_updates_only_on_success() {
    let mut light = sample_hue_light();
    assert_eq!(light.finish_set_on(false, false), Err(LightError::Transport));
    assert!(light.is_on);
    assert!(light.finish_set_on(false, true).is_ok());
    assert!(!light.is_on);
    assert!(light.finish_set_brightness(10, true).is_ok());
    assert_eq!(light.brightness, 10);
}

#[test]
fn hue_qualified_id() {
    assert_eq!(sample_hue_light().qualified_id(), "hue::7");
}

fn config_with_hue(bridge: Option<&str>, user: Option<&str>) -> CuteLightsConfig {
    let mut config = CuteLightsConfig::empty();
    config.hue = HueConfig {
        enabled: true,
        bridge_ip: bridge.map(String::from),
        username: user.map(String::from),
    };
    config
}

#[test]
fn hue_preflight_needs_bridge_and_user() {
    assert!(HueIntegration::preflight(&config_with_hue(Some("b"), Some("u"))));
    assert!(!HueIntegration::preflight(&config_with_hue(None, Some("u"))));
    assert!(!HueIntegration::preflight(&config_with_hue(Some("b"), None)));
    assert!(!HueIntegration::preflight(&CuteLightsConfig::empty()));
}

#[test]
fn discovery_url_shape() {
    assert_eq!(
        HueIntegration::discovery_url(&String::from("bridge"), &String::from("user")),
        "http://bridge/api/user/lights/"
    );
}

#[test]
fn decode_discovery_skips_unreachable_lights() {
    let body = "{\
        \"1\":{\"state\":{\"reachable\":true,\"on\":true,\"sat\":254,\"hue\":0,\"bri\":254},\
               \"name\":\"A\",\"capabilities\":{\"control\":{\"colorgamut\":[[0.1,0.2]]}}},\
        \"2\":{\"state\":{\"reachable\":false,\"on\":false,\"sat\":0,\"hue\":0,\"bri\":0},\
               \"name\":\"B\"},\
        \"3\":{\"state\":{\"reachable\":true,\"on\":false,\"sat\":0,\"hue\":0,\"bri\":127},\
               \"name\":\"C\",\"capabilities\":{\"control\":{}}}}";
    let lights =
        HueIntegration::decode_discovery(body, &String::from("b"), &String::from("u")).unwrap();
    assert_eq!(lights.len(), 2);
    assert_eq!(lights[0].id, "1");
    assert_eq!(lights[0].name, "A");
    assert!(lights[0].supports_color);
    assert_eq!(lights[0].brightness, 100);
    assert_eq!(lights[1].id, "3");
    assert!(!lights[1].supports_color);
    assert_eq!(lights[1].brightness, 50);
}

#[test]
fn decode_discovery_rejects_malformed_bodies() {
    assert!(
        HueIntegration::decode_discovery("[]", &String::from("b"), &String::from("u")).is_err()
    );
    assert!(
        HueIntegration::decode_discovery("{\"1\":{}}", &String::from("b"), &String::from("u"))
            .is_err()
    );
    assert!(HueIntegration::decode_discovery("nope", &String::from("b"), &String::from("u"))
        .is_err());
}
