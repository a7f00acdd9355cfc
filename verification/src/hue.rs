//! The HTTP bridge vendor family: a REST/JSON API fronting a mesh of bulbs.
//!
//! Discovery lists the bridge's lights and decodes each reachable one;
//! mutation issues a PUT of a small JSON body against the light's state
//! resource.  The wire ranges differ from the library's: brightness and
//! saturation travel as `0..=254`, hue as `0..=65535`; the exact rounded
//! scalings live here, with their round-trip laws.

use vstd::prelude::*;

use crate::color;
use crate::color::round_div;
use crate::config::CuteLightsConfig;
use crate::json;
use crate::text;
use crate::LightError;

verus! {

/// A percentage scaled onto the wire range `0..=254`, rounded to nearest.
pub open spec fn spec_pct_to_254(p: int) -> int {
    round_div(p * 254, 100)
}

/// A wire value `0..=254` scaled back to a percentage.
pub open spec fn spec_254_to_pct(x: int) -> int {
    round_div(x * 100, 254)
}

/// A hue in degrees scaled onto the wire range `0..=65535`.
pub open spec fn spec_hue_to_65535(h: int) -> int {
    round_div(h * 65535, 360)
}

/// A wire hue `0..=65535` scaled back to degrees.
pub open spec fn spec_65535_to_hue(x: int) -> int {
    round_div(x * 360, 65535)
}

/// Scales a percentage onto `0..=254`.
pub fn pct_to_254(p: u64) -> (r: u64)
    requires
        p <= 100,
    ensures
        r as int == spec_pct_to_254(p as int),
        r <= 254,
{
    let r = (2 * (p * 254) + 100) / 200;
    assert(round_div(p as int * 254, 100) <= 254) by (nonlinear_arith)
        requires
            0 <= p <= 100,
    ;
    r
}

/// Scales a wire value `0..=254` back to a percentage.
pub fn wire254_to_pct(x: u64) -> (r: u64)
    requires
        x <= 254,
    ensures
        r as int == spec_254_to_pct(x as int),
        r <= 100,
{
    let r = (2 * (x * 100) + 254) / 508;
    assert(round_div(x as int * 100, 254) <= 100) by (nonlinear_arith)
        requires
            0 <= x <= 254,
    ;
    r
}

/// Scales a hue in degrees onto `0..=65535`.
pub fn hue_to_65535(h: u64) -> (r: u64)
    requires
        h <= 360,
    ensures
        r as int == spec_hue_to_65535(h as int),
        r <= 65535,
{
    let r = (2 * (h * 65535) + 360) / 720;
    assert(round_div(h as int * 65535, 360) <= 65535) by (nonlinear_arith)
        requires
            0 <= h <= 360,
    ;
    r
}

/// Scales a wire hue `0..=65535` back to degrees.
pub fn wire65535_to_hue(x: u64) -> (r: u64)
    requires
        x <= 65535,
    ensures
        r as int == spec_65535_to_hue(x as int),
        r <= 360,
{
    let r = (2 * (x * 360) + 65535) / 131070;
    assert(round_div(x as int * 360, 65535) <= 360) by (nonlinear_arith)
        requires
            0 <= x <= 65535,
    ;
    r
}

/// Law: the percentage scaling round-trips exactly — scaling a percentage
/// onto the wire range and back returns it unchanged.
pub proof fn lemma_pct_scale_round_trip(p: int)
    requires
        0 <= p <= 100,
    ensures
        spec_254_to_pct(spec_pct_to_254(p)) == p,
{
    let y = spec_pct_to_254(p);
    color::lemma_round_div_close(p * 254, 100);
    color::lemma_round_div_ordered(0, p * 254, 100);
    let q = spec_254_to_pct(y);
    color::lemma_round_div_close(y * 100, 254);
    color::lemma_round_div_ordered(0, y * 100, 254);
    assert(q == p) by (nonlinear_arith)
        requires
            0 <= p <= 100,
            0 <= y,
            0 <= q,
            2 * (p * 254) - 100 < 2 * 100 * y <= 2 * (p * 254) + 100,
            2 * (y * 100) - 254 < 2 * 254 * q <= 2 * (y * 100) + 254,
    ;
}

/// Law: the hue scaling round-trips exactly — scaling degrees onto the wire
/// range and back returns them unchanged.
pub proof fn lemma_hue_scale_round_trip(h: int)
    requires
        0 <= h <= 360,
    ensures
        spec_65535_to_hue(spec_hue_to_65535(h)) == h,
{
    let y = spec_hue_to_65535(h);
    color::lemma_round_div_close(h * 65535, 360);
    color::lemma_round_div_ordered(0, h * 65535, 360);
    let q = spec_65535_to_hue(y);
    color::lemma_round_div_close(y * 360, 65535);
    color::lemma_round_div_ordered(0, y * 360, 65535);
    assert(q == h) by (nonlinear_arith)
        requires
            0 <= h <= 360,
            0 <= y,
            0 <= q,
            2 * (h * 65535) - 360 < 2 * 360 * y <= 2 * (h * 65535) + 360,
            2 * (y * 360) - 65535 < 2 * 65535 * q <= 2 * (y * 360) + 65535,
    ;
}

/// A handle onto one bridge-managed bulb: its coordinates on the bridge and
/// the cached state of the last successful command.
pub struct HueLight {
    pub id: String,
    pub username: String,
    pub bridge: String,
    pub brightness: u8,
    pub red: u8,
    pub green: u8,
    pub blue: u8,
    pub name: String,
    pub supports_color: bool,
    pub is_on: bool,
}

/// JSON body of the power request.
pub open spec fn spec_on_body(on: bool) -> Seq<char> {
    "{\"on\":"@ + (if on {
        "true"@
    } else {
        "false"@
    }) + "}"@
}

/// JSON body of the brightness request, in wire units.
pub open spec fn spec_brightness_body(p: int) -> Seq<char> {
    "{\"bri\":"@ + text::spec_dec(spec_pct_to_254(p) as nat) + "}"@
}

/// JSON body of the color request, in wire units.
pub open spec fn spec_color_body(h: int, s: int, b: int) -> Seq<char> {
    "{\"bri\":"@ + text::spec_dec(spec_pct_to_254(b) as nat) + ",\"hue\":"@ + text::spec_dec(
        spec_hue_to_65535(h) as nat,
    ) + ",\"sat\":"@ + text::spec_dec(spec_pct_to_254(s) as nat) + "}"@
}

impl HueLight {
    /// Cached state the capability contract promises: brightness is a
    /// percentage.
    pub open spec fn wf(&self) -> bool {
        self.brightness <= 100
    }

    /// The state resource of this light on the bridge.
    pub fn state_url(&self) -> (r: String)
        ensures
            r@ == "http://"@ + self.bridge@ + "/api/"@ + self.username@ + "/lights/"@ + self.id@
                + "/state"@,
    {
        let r = String::from_str("http://").concat(self.bridge.as_str()).concat("/api/").concat(
            self.username.as_str(),
        ).concat("/lights/").concat(self.id.as_str()).concat("/state");
        proof {
            assert(r@ =~= "http://"@ + self.bridge@ + "/api/"@ + self.username@ + "/lights/"@
                + self.id@ + "/state"@);
        }
        r
    }

    /// The body that sets the power state.
    pub fn set_on_body(on: bool) -> (r: String)
        ensures
            r@ == spec_on_body(on),
    {
        let word: &str = if on {
            "true"
        } else {
            "false"
        };
        let r = String::from_str("{\"on\":").concat(word).concat("}");
        proof {
            assert(r@ =~= spec_on_body(on));
        }
        r
    }

    /// The body that sets the brightness, scaled to wire units.
    pub fn set_brightness_body(brightness: u8) -> (r: String)
        requires
            brightness <= 100,
        ensures
            r@ == spec_brightness_body(brightness as int),
    {
        let wire = pct_to_254(brightness as u64);
        let r = String::from_str("{\"bri\":").concat(text::u64_to_string(wire).as_str()).concat(
            "}",
        );
        proof {
            assert(r@ =~= spec_brightness_body(brightness as int));
        }
        r
    }

    /// The body that sets the color: the RGB triple is converted to
    /// hue/saturation/lightness and each channel scaled to wire units.
    pub fn set_color_body(red: u8, green: u8, blue: u8) -> (r: String)
        ensures
            ({
                let hsl = color::spec_rgb_to_hsl(red as int, green as int, blue as int);
                r@ == spec_color_body(hsl.0, hsl.1, hsl.2)
            }),
    {
        let (h, s, b) = color::rgb_to_hsv(red, green, blue);
        let wire_h = hue_to_65535(h as u64);
        let wire_s = pct_to_254(s as u64);
        let wire_b = pct_to_254(b as u64);
        let r = String::from_str("{\"bri\":").concat(text::u64_to_string(wire_b).as_str()).concat(
            ",\"hue\":",
        ).concat(text::u64_to_string(wire_h).as_str()).concat(",\"sat\":").concat(
            text::u64_to_string(wire_s).as_str(),
        ).concat("}");
        proof {
            let hsl = color::spec_rgb_to_hsl(red as int, green as int, blue as int);
            assert(r@ =~= spec_color_body(hsl.0, hsl.1, hsl.2));
        }
        r
    }

    /// Law (cache coherence, power): on success the cached power state
    /// becomes the commanded one and nothing else moves; on failure the
    /// cache is untouched and the error is handed back.
    pub fn finish_set_on(&mut self, on: bool, ok: bool) -> (r: Result<(), LightError>)
        ensures
            ok ==> *final(self) == (HueLight { is_on: on, ..*old(self) }) && r is Ok,
            !ok ==> *final(self) == *old(self) && r == Err::<(), LightError>(
                LightError::Transport,
            ),
    {
        if ok {
            self.is_on = on;
            Ok(())
        } else {
            Err(LightError::Transport)
        }
    }

    /// Law (cache coherence, color): as [`Self::finish_set_on`], for the
    /// RGB triple.
    pub fn finish_set_color(&mut self, red: u8, green: u8, blue: u8, ok: bool) -> (r: Result<
        (),
        LightError,
    >)
        ensures
            ok ==> *final(self) == (HueLight { red, green, blue, ..*old(self) }) && r is Ok,
            !ok ==> *final(self) == *old(self) && r == Err::<(), LightError>(
                LightError::Transport,
            ),
    {
        if ok {
            self.red = red;
            self.green = green;
            self.blue = blue;
            Ok(())
        } else {
            Err(LightError::Transport)
        }
    }

    /// Law (cache coherence, brightness): as [`Self::finish_set_on`], for
    /// the brightness percentage.
    pub fn finish_set_brightness(&mut self, brightness: u8, ok: bool) -> (r: Result<
        (),
        LightError,
    >)
        requires
            brightness <= 100,
        ensures
            ok ==> *final(self) == (HueLight { brightness, ..*old(self) }) && r is Ok,
            !ok ==> *final(self) == *old(self) && r == Err::<(), LightError>(
                LightError::Transport,
            ),
    {
        if ok {
            self.brightness = brightness;
            Ok(())
        } else {
            Err(LightError::Transport)
        }
    }

    /// The vendor-qualified stable identifier.
    pub fn qualified_id(&self) -> (r: String)
        ensures
            r@ == "hue::"@ + self.id@,
    {
        String::from_str("hue::").concat(self.id.as_str())
    }

    /// Builds a light from the plain values of one decoded bridge record.
    /// Wire values out of their documented ranges are rejected.
    pub fn from_record(
        id: String,
        bridge: String,
        username: String,
        name: String,
        is_on: bool,
        raw_bri: i64,
        raw_hue: i64,
        raw_sat: i64,
        supports_color: bool,
    ) -> (r: Result<HueLight, LightError>)
        ensures
            r is Ok <==> (0 <= raw_bri <= 254 && 0 <= raw_hue <= 65535 && 0 <= raw_sat <= 254),
            r matches Ok(l) ==> ({
                let pct_bri = spec_254_to_pct(raw_bri as int);
                let deg_hue = spec_65535_to_hue(raw_hue as int);
                let pct_sat = spec_254_to_pct(raw_sat as int);
                let rgb = color::spec_hsl_to_rgb(deg_hue, pct_sat, pct_bri);
                &&& l.wf()
                &&& l.id == id
                &&& l.bridge == bridge
                &&& l.username == username
                &&& l.name == name
                &&& l.is_on == is_on
                &&& l.brightness == pct_bri
                &&& l.red == rgb.0
                &&& l.green == rgb.1
                &&& l.blue == rgb.2
                &&& l.supports_color == supports_color
            }),
            r is Err ==> r == Err::<HueLight, LightError>(LightError::Decode),
    {
        if !(0 <= raw_bri && raw_bri <= 254 && 0 <= raw_hue && raw_hue <= 65535 && 0 <= raw_sat
            && raw_sat <= 254) {
            return Err(LightError::Decode);
        }
        let pct_bri = wire254_to_pct(raw_bri as u64);
        let deg_hue = wire65535_to_hue(raw_hue as u64);
        let pct_sat = wire254_to_pct(raw_sat as u64);
        let (red, green, blue) = color::hsv_to_rgb(
            deg_hue as i64,
            pct_sat as i64,
            pct_bri as i64,
        );
        Ok(
            HueLight {
                id,
                username,
                bridge,
                brightness: pct_bri as u8,
                red,
                green,
                blue,
                name,
                supports_color,
                is_on,
            },
        )
    }

    /// Decodes one entry of the bridge's light listing.  An unreachable
    /// light is skipped (`Ok(None)`); a reachable one is built from its
    /// state fields; a malformed entry is a decode error.
    pub fn decode_entry(
        id: String,
        bridge: &String,
        username: &String,
        value: &json::JsonValue,
    ) -> (r: Result<Option<HueLight>, LightError>)
        ensures
            r is Ok <==> entry_decodes(*value),
            r matches Ok(Some(l)) ==> entry_reachable(*value) && l.wf() && entry_light(
                id@,
                *value,
                bridge@,
                username@,
                l,
            ),
            r matches Ok(None) ==> !entry_reachable(*value),
            r is Err ==> r == Err::<Option<HueLight>, LightError>(LightError::Decode),
    {
        let state = match value.get("state") {
            Some(v) => v,
            None => {
                return Err(LightError::Decode);
            },
        };
        let reachable = match json::get_bool_strict(state, "reachable") {
            Some(b) => b,
            None => {
                return Err(LightError::Decode);
            },
        };
        if !reachable {
            return Ok(None);
        }
        let is_on = match json::get_bool_strict(state, "on") {
            Some(b) => b,
            None => {
                return Err(LightError::Decode);
            },
        };
        let raw_sat = match json::get_int(state, "sat") {
            Some(n) => n,
            None => {
                return Err(LightError::Decode);
            },
        };
        let raw_hue = match json::get_int(state, "hue") {
            Some(n) => n,
            None => {
                return Err(LightError::Decode);
            },
        };
        let raw_bri = match json::get_int(state, "bri") {
            Some(n) => n,
            None => {
                return Err(LightError::Decode);
            },
        };
        let name = match json::get_str(value, "name") {
            Some(s) => s,
            None => {
                return Err(LightError::Decode);
            },
        };
        let supports_color = match value.get("capabilities") {
            Some(caps) => match caps.get("control") {
                Some(control) => match control.get("colorgamut") {
                    Some(gamut) => !gamut.is_null(),
                    None => false,
                },
                None => false,
            },
            None => false,
        };
        match HueLight::from_record(
            id,
            bridge.clone(),
            username.clone(),
            name,
            is_on,
            raw_bri,
            raw_hue,
            raw_sat,
            supports_color,
        ) {
            Ok(l) => Ok(Some(l)),
            Err(e) => Err(e),
        }
    }
}

/// The state object of one listing entry.
pub open spec fn spec_entry_state(v: json::JsonValue) -> Option<json::JsonValue> {
    v.spec_get("state"@)
}

/// Whether one listing entry decodes: its state names reachability, and a
/// reachable entry carries a power boolean, in-range wire values and a
/// name.  (An unreachable entry needs nothing more — it is skipped.)
pub open spec fn entry_decodes(v: json::JsonValue) -> bool {
    spec_entry_state(v) matches Some(state) && {
        &&& json::spec_bool_field(state, "reachable"@) is Some
        &&& (json::spec_bool_field(state, "reachable"@) == Some(true) ==> {
            &&& json::spec_bool_field(state, "on"@) is Some
            &&& json::spec_int_field(state, "sat"@) matches Some(s) && 0 <= s <= 254
            &&& json::spec_int_field(state, "hue"@) matches Some(h) && 0 <= h <= 65535
            &&& json::spec_int_field(state, "bri"@) matches Some(b) && 0 <= b <= 254
            &&& json::spec_str_field(v, "name"@) is Some
        })
    }
}

/// Whether one listing entry is reachable.
pub open spec fn entry_reachable(v: json::JsonValue) -> bool {
    spec_entry_state(v) matches Some(state) && json::spec_bool_field(state, "reachable"@) == Some(
        true,
    )
}

/// Whether one listing entry advertises a color gamut.
pub open spec fn entry_supports_color(v: json::JsonValue) -> bool {
    match v.spec_get("capabilities"@) {
        Some(caps) => match caps.spec_get("control"@) {
            Some(control) => match control.spec_get("colorgamut"@) {
                Some(gamut) => !gamut.spec_is_null(),
                None => false,
            },
            None => false,
        },
        None => false,
    }
}

/// How one decoded listing entry fixes a light: identifier from the
/// listing key, coordinates from the caller, name and power from the
/// entry, the wire values scaled, the RGB cache converted from them, and
/// color capability from the advertised gamut.
pub open spec fn entry_light(
    id: Seq<char>,
    v: json::JsonValue,
    bridge: Seq<char>,
    username: Seq<char>,
    l: HueLight,
) -> bool {
    let state = spec_entry_state(v)->0;
    let raw_bri = json::spec_int_field(state, "bri"@)->0;
    let raw_hue = json::spec_int_field(state, "hue"@)->0;
    let raw_sat = json::spec_int_field(state, "sat"@)->0;
    let pct_bri = spec_254_to_pct(raw_bri as int);
    let deg_hue = spec_65535_to_hue(raw_hue as int);
    let pct_sat = spec_254_to_pct(raw_sat as int);
    let rgb = color::spec_hsl_to_rgb(deg_hue, pct_sat, pct_bri);
    &&& l.id@ == id
    &&& l.bridge@ == bridge
    &&& l.username@ == username
    &&& json::spec_str_field(v, "name"@) == Some(l.name@)
    &&& json::spec_bool_field(state, "on"@) == Some(l.is_on)
    &&& l.brightness == pct_bri
    &&& l.red == rgb.0 && l.green == rgb.1 && l.blue == rgb.2
    &&& l.supports_color == entry_supports_color(v)
}

/// The HTTP bridge vendor family as an adapter.
pub struct HueIntegration;

impl HueIntegration {
    /// The family name that qualifies identifiers.
    pub fn name() -> (r: String)
        ensures
            r@ == "hue"@,
    {
        String::from_str("hue")
    }

    /// The family runs only with a bridge address and a username beside the
    /// enabled flag; the caller reports which field is missing.
    pub fn preflight(config: &CuteLightsConfig) -> (r: bool)
        ensures
            r == (config.hue.enabled && config.hue.bridge_ip is Some && config.hue.username
                is Some),
    {
        config.hue.enabled && config.hue.bridge_ip.is_some() && config.hue.username.is_some()
    }

    /// The bridge resource that lists every light.
    pub fn discovery_url(bridge: &String, username: &String) -> (r: String)
        ensures
            r@ == "http://"@ + bridge@ + "/api/"@ + username@ + "/lights/"@,
    {
        let r = String::from_str("http://").concat(bridge.as_str()).concat("/api/").concat(
            username.as_str(),
        ).concat("/lights/");
        proof {
            assert(r@ =~= "http://"@ + bridge@ + "/api/"@ + username@ + "/lights/"@);
        }
        r
    }

    /// Decodes the whole discovery response body: success comes exactly
    /// when the body parses to a JSON object whose every entry decodes, and
    /// the result is then exactly the reachable entries, each light fixed
    /// by its entry, in the parser's (sorted key) entry order.  A malformed
    /// body or entry fails the discovery, and the orchestrator then
    /// contributes no lights for this family.
    #[verifier::rlimit(60)]
    pub fn decode_discovery(body: &str, bridge: &String, username: &String) -> (r: Result<
        Vec<HueLight>,
        LightError,
    >)
        ensures
            r is Ok <==> discovery_decodes(json::json_text_doc(body@)),
            r matches Ok(ls) ==> ({
                let entries = (json::json_text_doc(body@)->0)->Object_0;
                let sel = reachable_selection(entries@, entries@.len() as int);
                &&& ls@.len() == sel.len()
                &&& forall|i: int|
                    0 <= i < sel.len() ==> (#[trigger] ls@[i]).wf() && entry_light(
                        sel[i].0,
                        sel[i].1,
                        bridge@,
                        username@,
                        ls@[i],
                    )
            }),
            r is Err ==> r == Err::<Vec<HueLight>, LightError>(LightError::Decode),
    {
        let doc = match json::parse_text(body) {
            Some(v) => v,
            None => {
                return Err(LightError::Decode);
            },
        };
        let entries = match &doc {
            json::JsonValue::Object(entries) => entries,
            _ => {
                return Err(LightError::Decode);
            },
        };
        let ghost all = entries@;
        let mut lights: Vec<HueLight> = Vec::new();
        let mut i: usize = 0;
        while i < entries.len()
            invariant
                i <= all.len(),
                entries@ == all,
                json::json_text_doc(body@) == Some(doc),
                doc is Object,
                doc->Object_0@ == all,
                forall|k: int| 0 <= k < i ==> entry_decodes((#[trigger] all[k]).1),
                ({
                    let sel = reachable_selection(all, i as int);
                    &&& lights@.len() == sel.len()
                    &&& forall|j: int|
                        0 <= j < sel.len() ==> (#[trigger] lights@[j]).wf() && entry_light(
                            sel[j].0,
                            sel[j].1,
                            bridge@,
                            username@,
                            lights@[j],
                        )
                }),
            decreases all.len() - i,
        {
            let entry = &entries[i];
            match HueLight::decode_entry(entry.0.clone(), bridge, username, &entry.1) {
                Ok(Some(l)) => {
                    lights.push(l);
                },
                Ok(None) => {},
                Err(e) => {
                    return Err(e);
                },
            }
            i = i + 1;
        }
        Ok(lights)
    }
}

/// Whether a discovery body decodes: it parses to a JSON object and every
/// entry of the listing decodes.
pub open spec fn discovery_decodes(doc: Option<json::JsonValue>) -> bool {
    doc matches Some(d) && d matches json::JsonValue::Object(entries) && (forall|k: int|
        0 <= k < entries@.len() ==> entry_decodes((#[trigger] entries@[k]).1))
}

/// The reachable entries among the first `n` of a listing, in order, each
/// as its key and its entry value.
pub open spec fn reachable_selection(entries: Seq<(String, json::JsonValue)>, n: int) -> Seq<
    (Seq<char>, json::JsonValue),
>
    decreases n,
{
    if n <= 0 {
        Seq::empty()
    } else {
        let prev = reachable_selection(entries, n - 1);
        if entry_reachable(entries[n - 1].1) {
            prev.push((entries[n - 1].0@, entries[n - 1].1))
        } else {
            prev
        }
    }
}

} // verus!
