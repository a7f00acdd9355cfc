use cute_lights::color::hsv_to_rgb;
use cute_lights::kasa::KasaLight;
use cute_lights::LightError;

fn sysinfo_response() -> Vec<u8> {
    let body = "{\"system\":{\"get_sysinfo\":{\"alias\":\"Desk Lamp\",\"mic_mac\":\"AA:BB:CC\",\
                 \"is_color\":1,\"light_state\":{\"on_off\":1,\"brightness\":80,\"hue\":120,\
                 \"saturation\":100}}}}";
    body.as_bytes().to_vec()
}

#[test]
fn from_sysinfo_decodes_device_state() {
    let light = KasaLight::from_sysinfo(String::from("10.0.0.5"), &sysinfo_response()).unwrap();
    assert_eq!(light.ip, "10.0.0.5");
    assert_eq!(light.name, "Desk Lamp");
    assert_eq!(light.id, "AA:BB:CC");
    assert!(light.supports_color);
    assert!(light.is_on);
    assert_eq!(light.brightness, 80);
    let (r, g, b) = hsv_to_rgb(120, 100, 80);
    assert_eq!((light.red, light.green, light.blue), (r, g, b));
}

#[test]
fn from_sysinfo_defaults_missing_light_state_numbers_to_zero() {
    let body = "{\"system\":{\"get_sysinfo\":{\"alias\":\"L\",\"mic_mac\":\"M\",\"is_color\":0,\
                 \"light_state\":{\"on_off\":0}}}}";
    let light = KasaLight::from_sysinfo(String::from("ip"), body.as_bytes()).unwrap();
    assert!(!light.is_on);
    assert!(!light.supports_color);
    assert_eq!(light.brightness, 0);
    assert_eq!((light.red, light.green, light.blue), (0, 0, 0));
}

#[test]
fn from_sysinfo_rejects_malformed_payload() {
    let bad_syntax = KasaLight::from_sysinfo(String::from("ip"), b"not json");
    assert!(matches!(bad_syntax, Err(LightError::Decode)));
    let bad_shape = KasaLight::from_sysinfo(String::from("ip"), b"{\"system\":{}}");
    assert!(matches!(bad_shape, Err(LightError::Decode)));
}

#[test]
fn from_state_rejects_out_of_range_values() {
    let mk = |bri: i64, hue: i64, sat: i64| {
        KasaLight::from_state(
            String::from("ip"),
            String::from("n"),
            String::from("m"),
            true,
            true,
            bri,
            hue,
            sat,
        )
    };
    assert!(mk(101, 0, 0).is_err());
    assert!(mk(0, 361, 0).is_err());
    assert!(mk(0, 0, 101).is_err());
    assert!(mk(-1, 0, 0).is_err());
    assert!(mk(100, 360, 100).is_ok());
}

fn sample_light() -> KasaLight {
    KasaLight::from_sysinfo(String::from("10.0.0.5"), &sysinfo_response()).unwrap()
}

#[test]
fn kasa_cache_updates_only_on_success() {
    let mut light = sample_light();
    assert!(light.finish_set_on(false, true).is_ok());
    assert!(!light.is_on);
    assert_eq!(light.finish_set_on(true, false), Err(LightError::Transport));
    assert!(!light.is_on);

    let before = (light.red, light.green, light.blue);
    assert_eq!(
        light.finish_set_color(1, 2, 3, false),
        Err(LightError::Transport)
    );
    assert_eq!((light.red, light.green, light.blue), before);
    assert!(light.finish_set_color(1, 2, 3, true).is_ok());
    assert_eq!((light.red, light.green, light.blue), (1, 2, 3));

    assert_eq!(
        light.finish_set_brightness(5, false),
        Err(LightError::Transport)
    );
    assert_eq!(light.brightness, 80);
    assert!(light.finish_set_brightness(5, true).is_ok());
    assert_eq!(light.brightness, 5);
}

#[test]
fn kasa_qualified_id() {
    assert_eq!(sample_light().qualified_id(), "kasa::AA:BB:CC");
}

#[test]
fn sysinfo_exchange_round_trip() {
    // The device frames its response with the same codec; the read loop's
    // termination test accepts exactly a complete frame.
    let frame = KasaLight::encrypt(std::str::from_utf8(&sysinfo_response()).unwrap());
    assert!(KasaLight::response_complete(&frame));
    let plain = KasaLight::decrypt(&frame);
    let light = KasaLight::from_sysinfo(String::from("10.0.0.5"), &plain).unwrap();
    assert_eq!(light.name, "Desk Lamp");
}
