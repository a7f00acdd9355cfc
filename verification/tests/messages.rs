use cute_lights::govee::{DeviceColor, GoveeLight, Request};
use cute_lights::kasa::{
    brightness_message, color_message, get_sysinfo_message, on_off_message, KasaLight,
};

#[test]
fn kasa_on_off_message_text() {
    assert_eq!(
        on_off_message(true),
        "{\"smartlife.iot.smartbulb.lightingservice\":{\"transition_light_state\":{\"on_off\":1,\"transition_period\":0}}}"
    );
    assert_eq!(
        on_off_message(false),
        "{\"smartlife.iot.smartbulb.lightingservice\":{\"transition_light_state\":{\"on_off\":0,\"transition_period\":0}}}"
    );
}

#[test]
fn kasa_brightness_message_text() {
    assert_eq!(
        brightness_message(40),
        "{\"smartlife.iot.smartbulb.lightingservice\":{\"transition_light_state\":{\"brightness\":40,\"on_off\":1,\"transition_period\":0}}}"
    );
}

#[test]
fn kasa_color_message_text() {
    assert_eq!(
        color_message(300, 50, 75),
        "{\"smartlife.iot.smartbulb.lightingservice\":{\"transition_light_state\":{\"brightness\":75,\"hue\":300,\"on_off\":1,\"saturation\":50,\"transition_period\":0}}}"
    );
}

#[test]
fn kasa_sysinfo_message_text() {
    assert_eq!(get_sysinfo_message(), "{\"system\":{\"get_sysinfo\":{}}}");
}

#[test]
fn kasa_requests_are_valid_json() {
    for msg in [
        on_off_message(true),
        brightness_message(100),
        color_message(360, 100, 100),
        get_sysinfo_message(),
    ] {
        assert!(serde_json::from_str::<serde_json::Value>(&msg).is_ok());
    }
}

#[test]
fn kasa_set_color_request_converts_rgb() {
    // Pure red is hue 0, full saturation, half lightness.
    assert_eq!(
        KasaLight::set_color_request(255, 0, 0),
        "{\"smartlife.iot.smartbulb.lightingservice\":{\"transition_light_state\":{\"brightness\":50,\"hue\":0,\"on_off\":1,\"saturation\":100,\"transition_period\":0}}}"
    );
}

#[test]
fn govee_scan_message_text() {
    assert_eq!(
        GoveeLight::set_on_request(true),
        "{\"msg\":{\"cmd\":\"turn\",\"data\":{\"value\":1}}}"
    );
    assert_eq!(
        GoveeLight::set_on_request(false),
        "{\"msg\":{\"cmd\":\"turn\",\"data\":{\"value\":0}}}"
    );
    assert_eq!(
        cute_lights::govee::render_request(&Request::Scan {
            topic: cute_lights::govee::AccountTopic::Reserve
        }),
        "{\"msg\":{\"cmd\":\"scan\",\"data\":{\"account_topic\":\"reserve\"}}}"
    );
}

#[test]
fn govee_status_and_brightness_message_text() {
    assert_eq!(
        GoveeLight::status_request(),
        "{\"msg\":{\"cmd\":\"devStatus\",\"data\":{}}}"
    );
    assert_eq!(
        GoveeLight::set_brightness_request(77),
        "{\"msg\":{\"cmd\":\"brightness\",\"data\":{\"value\":77}}}"
    );
}

#[test]
fn govee_color_message_text() {
    assert_eq!(
        GoveeLight::set_color_request(10, 20, 30),
        "{\"msg\":{\"cmd\":\"colorwc\",\"data\":{\"color\":{\"r\":10,\"g\":20,\"b\":30},\"colorTemInKelvin\":7200}}}"
    );
    assert_eq!(
        cute_lights::govee::render_request(&Request::Color {
            color: DeviceColor { r: 0, g: 0, b: 255 },
            color_temperature_kelvin: 7200,
        }),
        "{\"msg\":{\"cmd\":\"colorwc\",\"data\":{\"color\":{\"r\":0,\"g\":0,\"b\":255},\"colorTemInKelvin\":7200}}}"
    );
}

#[test]
fn govee_requests_are_valid_json() {
    for msg in [
        GoveeLight::set_on_request(true),
        GoveeLight::set_brightness_request(100),
        GoveeLight::set_color_request(255, 255, 255),
        GoveeLight::status_request(),
    ] {
        assert!(serde_json::from_str::<serde_json::Value>(&msg).is_ok());
    }
}
