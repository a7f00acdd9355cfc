use cute_lights::config::CuteLightsConfig;
use cute_lights::discover::{merge_outcomes, preflight_all};
use cute_lights::frame::{Frame, Operation};
use cute_lights::govee::{DeviceColor, DeviceStatus, GoveeLight};
use cute_lights::kasa::KasaLight;
use cute_lights::light::Light;
use cute_lights::LightError;

fn kasa_light(mac: &str) -> Light {
    Light::Kasa(
        KasaLight::from_state(
            String::from("10.0.0.5"),
            String::from("Lamp"),
            String::from(mac),
            true,
            true,
            80,
            120,
            100,
        )
        .unwrap(),
    )
}

fn govee_light(mac: &str) -> Light {
    let status = DeviceStatus {
        on: false,
        brightness: 40,
        color: DeviceColor { r: 1, g: 2, b: 3 },
        color_temperature_kelvin: 7200,
    };
    Light::Govee(GoveeLight::from_status(String::from("10.0.0.9"), String::from(mac), &status).unwrap())
}

#[test]
fn frame_accumulates_and_clears() {
    let mut frame = Frame::new();
    assert_eq!(frame.len(), 0);
    frame.set_on(0, true);
    frame.set_brightness(1, 50);
    frame.set_color(2, 9, 8, 7);
    assert_eq!(frame.len(), 3);
    frame.clear();
    assert_eq!(frame.len(), 0);
}

#[test]
fn frame_drain_empties_the_frame() {
    let mut frame = Frame::new();
    frame.set_on(0, true);
    frame.set_on(1, false);
    let ops = frame.drain();
    assert_eq!(ops, vec![Operation::SetOn(0, true), Operation::SetOn(1, false)]);
    assert_eq!(frame.len(), 0);
}

#[test]
fn frame_run_swallows_every_failure() {
    // A run in which every transport attempt fails: each operation hands an
    // error back, the runner drops them all, every light keeps its state,
    // and the frame ends empty.
    let mut lights = vec![kasa_light("A"), govee_light("B")];
    let mut frame = Frame::new();
    frame.set_on(0, false);
    frame.set_brightness(1, 100);
    frame.set_color(0, 1, 1, 1);
    let before_a = lights[0].is_on();
    let before_b = lights[1].brightness();
    let ops = frame.drain();
    for op in &ops {
        let target = op.target();
        let _ = lights[target].finish_operation(op, false);
    }
    assert_eq!(frame.len(), 0);
    assert_eq!(lights[0].is_on(), before_a);
    assert_eq!(lights[1].brightness(), before_b);
}

#[test]
fn frame_operations_apply_on_success() {
    let mut lights = vec![kasa_light("A")];
    let mut frame = Frame::new();
    frame.set_on(0, false);
    frame.set_brightness(0, 7);
    for op in frame.drain() {
        lights[op.target()].finish_operation(&op, true).unwrap();
    }
    assert!(!lights[0].is_on());
    assert_eq!(lights[0].brightness(), 7);
}

#[test]
fn merge_tolerates_failed_adapters() {
    let merged = merge_outcomes(vec![
        Ok(vec![kasa_light("A")]),
        Err(LightError::Transport),
        Ok(vec![govee_light("B"), govee_light("C")]),
    ]);
    let ids: Vec<String> = merged.iter().map(|l| l.id()).collect();
    assert_eq!(ids, vec!["kasa::A", "govee::B", "govee::C"]);
}

#[test]
fn merge_of_all_failures_is_empty() {
    let merged = merge_outcomes(vec![
        Err(LightError::Transport),
        Err(LightError::Decode),
        Err(LightError::Device),
    ]);
    assert!(merged.is_empty());
}

#[test]
fn misconfigured_adapter_is_skipped_before_it_runs() {
    // Hue enabled but without a bridge address: its preflight declines and
    // the others are unaffected.
    let mut config = CuteLightsConfig::empty();
    config.kasa.enabled = true;
    config.hue.enabled = true;
    let enabled = preflight_all(&config);
    assert!(enabled.kasa);
    assert!(!enabled.hue);
    assert!(!enabled.govee);
}

#[test]
fn light_ids_are_family_qualified() {
    assert_eq!(kasa_light("M1").id(), "kasa::M1");
    assert_eq!(govee_light("M1").id(), "govee::M1");
    let hue = Light::Hue(
        cute_lights::hue::HueLight::from_record(
            String::from("7"),
            String::from("b"),
            String::from("u"),
            String::from("n"),
            true,
            0,
            0,
            0,
            true,
        )
        .unwrap(),
    );
    assert_eq!(hue.id(), "hue::7");
}

#[test]
fn distinct_lights_have_distinct_ids() {
    let lights = vec![kasa_light("M1"), kasa_light("M2"), govee_light("M1"), govee_light("M2")];
    for i in 0..lights.len() {
        for j in 0..lights.len() {
            if i != j {
                assert_ne!(lights[i].id(), lights[j].id());
            }
        }
    }
}

#[test]
fn light_accessors_read_the_cache() {
    let light = kasa_light("A");
    assert!(light.is_on());
    assert_eq!(light.brightness(), 80);
    assert!(light.supports_color());
    assert_eq!(light.name(), "Lamp");
    let g = govee_light("B");
    assert_eq!(g.name(), "Govee Light (B)");
    assert!(g.supports_color());
    assert_eq!((g.red(), g.green(), g.blue()), (1, 2, 3));
}
