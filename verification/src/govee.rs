//! The UDP multicast vendor family: plaintext JSON datagrams.
//!
//! Discovery multicasts a scan solicitation and correlates the unicast
//! answers against the configured address list under a timeout; control
//! messages go to each device's port directly.  The caller owns the sockets:
//! it feeds received datagrams to the [`ScanCollector`] and sends the
//! rendered requests out.

use vstd::prelude::*;

use crate::config::CuteLightsConfig;
use crate::json;
use crate::text;
use crate::LightError;

verus! {

/// Port the scan solicitation is multicast to.
pub const MULTICAST_PORT: u16 = 4001;

/// Local port the shared control socket binds.
pub const LISTEN_PORT: u16 = 4002;

/// Port each device listens on for unicast control.
pub const CONTROL_PORT: u16 = 4003;

/// Time-to-live of the multicast solicitation.
pub const MULTICAST_TTL: u32 = 2;

/// The multicast group the devices join.
pub fn multicast_group() -> (r: &'static str)
    ensures
        r@ == "239.255.255.250"@,
{
    "239.255.255.250"
}

/// The account topic named in a scan solicitation.
#[derive(Debug, Clone, Copy, PartialEq, Eq, Structural)]
pub enum AccountTopic {
    Reserve,
}

/// An RGB triple as the wire format carries it.
#[derive(Debug, Clone, Copy, PartialEq, Eq, Structural)]
pub struct DeviceColor {
    pub r: u8,
    pub g: u8,
    pub b: u8,
}

/// A request datagram, one variant per command.
#[derive(Debug, Clone, Copy, PartialEq, Eq, Structural)]
pub enum Request {
    Scan { topic: AccountTopic },
    DevStatus {},
    Turn { value: u8 },
    Brightness { value: u8 },
    Color { color: DeviceColor, color_temperature_kelvin: u32 },
}

/// A request datagram as sent: the command wrapped in the message envelope.
#[derive(Debug, Clone, Copy, PartialEq, Eq, Structural)]
pub struct RequestMessage {
    pub msg: Request,
}

/// The state a device reports for itself.
#[derive(Debug, Clone, Copy, PartialEq, Eq, Structural)]
pub struct DeviceStatus {
    pub on: bool,
    pub brightness: u8,
    pub color: DeviceColor,
    pub color_temperature_kelvin: u32,
}

/// A device announcing itself in answer to a scan.
#[derive(Debug, Clone)]
pub struct LanDevice {
    pub ip: String,
    pub device: String,
    pub sku: String,
    pub ble_version_hard: String,
    pub ble_version_soft: String,
    pub wifi_version_hard: String,
    pub wifi_version_soft: String,
}

/// A response datagram.
#[derive(Debug, Clone)]
pub enum Response {
    Scan(LanDevice),
    DevStatus(DeviceStatus),
    Void,
}

/// A response datagram in its message envelope.
#[derive(Debug, Clone)]
pub struct ResponseMessage {
    pub msg: Response,
}

/// JSON text of the scan solicitation.
pub open spec fn spec_scan_message() -> Seq<char> {
    "{\"msg\":{\"cmd\":\"scan\",\"data\":{\"account_topic\":\"reserve\"}}}"@
}

/// JSON text of the status query.
pub open spec fn spec_dev_status_message() -> Seq<char> {
    "{\"msg\":{\"cmd\":\"devStatus\",\"data\":{}}}"@
}

/// JSON text of the power command.
pub open spec fn spec_turn_message(value: int) -> Seq<char> {
    "{\"msg\":{\"cmd\":\"turn\",\"data\":{\"value\":"@ + text::spec_dec(value as nat) + "}}}"@
}

/// JSON text of the brightness command.
pub open spec fn spec_brightness_message(value: int) -> Seq<char> {
    "{\"msg\":{\"cmd\":\"brightness\",\"data\":{\"value\":"@ + text::spec_dec(value as nat)
        + "}}}"@
}

/// JSON text of the color command.
pub open spec fn spec_color_message(r: int, g: int, b: int, kelvin: int) -> Seq<char> {
    "{\"msg\":{\"cmd\":\"colorwc\",\"data\":{\"color\":{\"r\":"@ + text::spec_dec(r as nat)
        + ",\"g\":"@ + text::spec_dec(g as nat) + ",\"b\":"@ + text::spec_dec(b as nat)
        + "},\"colorTemInKelvin\":"@ + text::spec_dec(kelvin as nat) + "}}}"@
}

/// JSON text of any request message.
pub open spec fn spec_request_message(req: Request) -> Seq<char> {
    match req {
        Request::Scan { topic: _ } => spec_scan_message(),
        Request::DevStatus {  } => spec_dev_status_message(),
        Request::Turn { value } => spec_turn_message(value as int),
        Request::Brightness { value } => spec_brightness_message(value as int),
        Request::Color { color, color_temperature_kelvin } => spec_color_message(
            color.r as int,
            color.g as int,
            color.b as int,
            color_temperature_kelvin as int,
        ),
    }
}

/// Renders a request datagram.
pub fn render_request(req: &Request) -> (r: String)
    ensures
        r@ == spec_request_message(*req),
{
    match req {
        Request::Scan { topic: _ } => {
            String::from_str("{\"msg\":{\"cmd\":\"scan\",\"data\":{\"account_topic\":\"reserve\"}}}")
        },
        Request::DevStatus {  } => {
            String::from_str("{\"msg\":{\"cmd\":\"devStatus\",\"data\":{}}}")
        },
        Request::Turn { value } => {
            let r = String::from_str("{\"msg\":{\"cmd\":\"turn\",\"data\":{\"value\":").concat(
                text::u64_to_string(*value as u64).as_str(),
            ).concat("}}}");
            proof {
                assert(r@ =~= spec_turn_message(value as int));
            }
            r
        },
        Request::Brightness { value } => {
            let r = String::from_str("{\"msg\":{\"cmd\":\"brightness\",\"data\":{\"value\":")
                .concat(text::u64_to_string(*value as u64).as_str()).concat("}}}");
            proof {
                assert(r@ =~= spec_brightness_message(value as int));
            }
            r
        },
        Request::Color { color, color_temperature_kelvin } => {
            let r = String::from_str("{\"msg\":{\"cmd\":\"colorwc\",\"data\":{\"color\":{\"r\":")
                .concat(text::u64_to_string(color.r as u64).as_str()).concat(",\"g\":").concat(
                text::u64_to_string(color.g as u64).as_str(),
            ).concat(",\"b\":").concat(text::u64_to_string(color.b as u64).as_str()).concat(
                "},\"colorTemInKelvin\":",
            ).concat(text::u64_to_string(*color_temperature_kelvin as u64).as_str()).concat("}}}");
            proof {
                assert(r@ =~= spec_color_message(
                    color.r as int,
                    color.g as int,
                    color.b as int,
                    color_temperature_kelvin as int,
                ));
            }
            r
        },
    }
}

/// The message object of a response document.
pub open spec fn spec_msg(doc: json::JsonValue) -> Option<json::JsonValue> {
    doc.spec_get("msg"@)
}

/// The command tag of a response document.
pub open spec fn spec_cmd(doc: json::JsonValue) -> Option<Seq<char>> {
    match spec_msg(doc) {
        Some(m) => json::spec_str_field(m, "cmd"@),
        None => None,
    }
}

/// The data object of a response document.
pub open spec fn spec_data(doc: json::JsonValue) -> Option<json::JsonValue> {
    match spec_msg(doc) {
        Some(m) => m.spec_get("data"@),
        None => None,
    }
}

/// Whether a scan answer's data carries every device field as a string.
pub open spec fn scan_fields_ok(data: json::JsonValue) -> bool {
    &&& json::spec_str_field(data, "ip"@) is Some
    &&& json::spec_str_field(data, "device"@) is Some
    &&& json::spec_str_field(data, "sku"@) is Some
    &&& json::spec_str_field(data, "bleVersionHard"@) is Some
    &&& json::spec_str_field(data, "bleVersionSoft"@) is Some
    &&& json::spec_str_field(data, "wifiVersionHard"@) is Some
    &&& json::spec_str_field(data, "wifiVersionSoft"@) is Some
}

/// Whether a status answer's data is complete and in range.
pub open spec fn status_fields_ok(data: json::JsonValue) -> bool {
    &&& json::spec_truthy_field(data, "onOff"@) is Some
    &&& json::spec_int_field(data, "brightness"@) matches Some(b) && 0 <= b <= 255
    &&& data.spec_get("color"@) matches Some(c) && {
        &&& json::spec_int_field(c, "r"@) matches Some(cr) && 0 <= cr <= 255
        &&& json::spec_int_field(c, "g"@) matches Some(cg) && 0 <= cg <= 255
        &&& json::spec_int_field(c, "b"@) matches Some(cb) && 0 <= cb <= 255
    }
    &&& json::spec_int_field(data, "colorTemInKelvin"@) matches Some(k) && 0 <= k <= 0xffffffff
}

/// Whether a document decodes as a response message: the envelope is
/// present, and the data fits the command — `scan` or `devStatus`; any
/// other command is undecodable.
pub open spec fn response_decodes(doc: json::JsonValue) -> bool {
    &&& spec_msg(doc) is Some
    &&& spec_cmd(doc) is Some
    &&& spec_data(doc) matches Some(data) && {
        let cmd = spec_cmd(doc)->0;
        if cmd == "scan"@ {
            scan_fields_ok(data)
        } else if cmd == "devStatus"@ {
            status_fields_ok(data)
        } else {
            false
        }
    }
}

/// How a decoded document fixes the response message: a scan answer's
/// device fields verbatim, or a status answer's fields by the
/// integer-as-bool and integer rules.
pub open spec fn response_of(doc: json::JsonValue, m: ResponseMessage) -> bool {
    let data = spec_data(doc)->0;
    if spec_cmd(doc) == Some("scan"@) {
        m.msg matches Response::Scan(dev) && {
            &&& json::spec_str_field(data, "ip"@) == Some(dev.ip@)
            &&& json::spec_str_field(data, "device"@) == Some(dev.device@)
            &&& json::spec_str_field(data, "sku"@) == Some(dev.sku@)
            &&& json::spec_str_field(data, "bleVersionHard"@) == Some(dev.ble_version_hard@)
            &&& json::spec_str_field(data, "bleVersionSoft"@) == Some(dev.ble_version_soft@)
            &&& json::spec_str_field(data, "wifiVersionHard"@) == Some(dev.wifi_version_hard@)
            &&& json::spec_str_field(data, "wifiVersionSoft"@) == Some(dev.wifi_version_soft@)
        }
    } else {
        m.msg matches Response::DevStatus(s) && {
            let c = data.spec_get("color"@)->0;
            &&& json::spec_truthy_field(data, "onOff"@) == Some(s.on)
            &&& json::spec_int_field(data, "brightness"@) == Some(s.brightness as i64)
            &&& json::spec_int_field(c, "r"@) == Some(s.color.r as i64)
            &&& json::spec_int_field(c, "g"@) == Some(s.color.g as i64)
            &&& json::spec_int_field(c, "b"@) == Some(s.color.b as i64)
            &&& json::spec_int_field(data, "colorTemInKelvin"@) == Some(
                s.color_temperature_kelvin as i64,
            )
        }
    }
}

/// Decodes a response document into the response message.  Unknown
/// commands and malformed shapes are decode errors.
fn decode_response_value(parsed: &json::JsonValue) -> (r: Result<ResponseMessage, LightError>)
    ensures
        r is Ok <==> response_decodes(*parsed),
        r matches Ok(m) ==> response_of(*parsed, m),
        r is Err ==> r == Err::<ResponseMessage, LightError>(LightError::Decode),
{
    let msg = match parsed.get("msg") {
        Some(v) => v,
        None => {
            return Err(LightError::Decode);
        },
    };
    let cmd = match json::get_str(msg, "cmd") {
        Some(s) => s,
        None => {
            return Err(LightError::Decode);
        },
    };
    let data = match msg.get("data") {
        Some(v) => v,
        None => {
            return Err(LightError::Decode);
        },
    };
    if text::str_eq(cmd.as_str(), "scan") {
        let ip = match string_field(data, "ip") {
            Ok(s) => s,
            Err(e) => {
                return Err(e);
            },
        };
        let device = match string_field(data, "device") {
            Ok(s) => s,
            Err(e) => {
                return Err(e);
            },
        };
        let sku = match string_field(data, "sku") {
            Ok(s) => s,
            Err(e) => {
                return Err(e);
            },
        };
        let ble_version_hard = match string_field(data, "bleVersionHard") {
            Ok(s) => s,
            Err(e) => {
                return Err(e);
            },
        };
        let ble_version_soft = match string_field(data, "bleVersionSoft") {
            Ok(s) => s,
            Err(e) => {
                return Err(e);
            },
        };
        let wifi_version_hard = match string_field(data, "wifiVersionHard") {
            Ok(s) => s,
            Err(e) => {
                return Err(e);
            },
        };
        let wifi_version_soft = match string_field(data, "wifiVersionSoft") {
            Ok(s) => s,
            Err(e) => {
                return Err(e);
            },
        };
        Ok(
            ResponseMessage {
                msg: Response::Scan(
                    LanDevice {
                        ip,
                        device,
                        sku,
                        ble_version_hard,
                        ble_version_soft,
                        wifi_version_hard,
                        wifi_version_soft,
                    },
                ),
            },
        )
    } else if text::str_eq(cmd.as_str(), "devStatus") {
        let on = match json::get_truthy(data, "onOff") {
            Some(b) => b,
            None => {
                return Err(LightError::Decode);
            },
        };
        let brightness = match int_field(data, "brightness", 255) {
            Ok(n) => n,
            Err(e) => {
                return Err(e);
            },
        };
        let color = match data.get("color") {
            Some(c) => {
                let cr = match int_field(c, "r", 255) {
                    Ok(n) => n,
                    Err(e) => {
                        return Err(e);
                    },
                };
                let cg = match int_field(c, "g", 255) {
                    Ok(n) => n,
                    Err(e) => {
                        return Err(e);
                    },
                };
                let cb = match int_field(c, "b", 255) {
                    Ok(n) => n,
                    Err(e) => {
                        return Err(e);
                    },
                };
                DeviceColor { r: cr as u8, g: cg as u8, b: cb as u8 }
            },
            None => {
                return Err(LightError::Decode);
            },
        };
        let kelvin = match int_field(data, "colorTemInKelvin", 0xffffffff) {
            Ok(n) => n,
            Err(e) => {
                return Err(e);
            },
        };
        Ok(
            ResponseMessage {
                msg: Response::DevStatus(
                    DeviceStatus {
                        on,
                        brightness: brightness as u8,
                        color,
                        color_temperature_kelvin: kelvin as u32,
                    },
                ),
            },
        )
    } else {
        Err(LightError::Decode)
    }
}

/// Reads a mandatory string field.
fn string_field(v: &json::JsonValue, key: &str) -> (r: Result<String, LightError>)
    ensures
        r matches Ok(s) ==> json::spec_str_field(*v, key@) == Some(s@),
        r is Err <==> json::spec_str_field(*v, key@) is None,
        r is Err ==> r == Err::<String, LightError>(LightError::Decode),
{
    match json::get_str(v, key) {
        Some(s) => Ok(s),
        None => Err(LightError::Decode),
    }
}

/// Reads a mandatory integer field bounded by `max`.
fn int_field(v: &json::JsonValue, key: &str, max: i64) -> (r: Result<i64, LightError>)
    requires
        0 <= max,
    ensures
        r matches Ok(n) ==> json::spec_int_field(*v, key@) == Some(n) && 0 <= n <= max,
        r is Ok <==> (json::spec_int_field(*v, key@) matches Some(n) && 0 <= n <= max),
        r is Err ==> r == Err::<i64, LightError>(LightError::Decode),
{
    match json::get_int(v, key) {
        Some(n) => {
            if 0 <= n && n <= max {
                Ok(n)
            } else {
                Err(LightError::Decode)
            }
        },
        None => Err(LightError::Decode),
    }
}

/// Decodes one response datagram held as text: success comes exactly when
/// the text parses to a well-formed response document, and the result is
/// then that document's message.
pub fn parse_response(text_msg: &str) -> (r: Result<ResponseMessage, LightError>)
    ensures
        r is Ok <==> (json::json_text_doc(text_msg@) matches Some(d) && response_decodes(d)),
        r matches Ok(m) ==> response_of(json::json_text_doc(text_msg@)->0, m),
        r is Err ==> r == Err::<ResponseMessage, LightError>(LightError::Decode),
{
    match json::parse_text(text_msg) {
        Some(parsed) => decode_response_value(&parsed),
        None => Err(LightError::Decode),
    }
}

/// Decodes one response datagram held as bytes, as [`parse_response`] does
/// for text.
pub fn parse_response_bytes(buf: &[u8]) -> (r: Result<ResponseMessage, LightError>)
    ensures
        r is Ok <==> (json::json_bytes_doc(buf@) matches Some(d) && response_decodes(d)),
        r matches Ok(m) ==> response_of(json::json_bytes_doc(buf@)->0, m),
        r is Err ==> r == Err::<ResponseMessage, LightError>(LightError::Decode),
{
    match json::parse_bytes(buf) {
        Some(parsed) => decode_response_value(&parsed),
        None => Err(LightError::Decode),
    }
}

/// Whether a parsed datagram is a well-formed scan answer.
pub open spec fn is_scan_answer(doc: Option<json::JsonValue>) -> bool {
    doc matches Some(d) && response_decodes(d) && spec_cmd(d) == Some("scan"@)
}

/// The `(ip, device)` pair a scan answer announces.
pub open spec fn scan_pair(doc: json::JsonValue) -> (Seq<char>, Seq<char>) {
    let data = spec_data(doc)->0;
    (json::spec_str_field(data, "ip"@)->0, json::spec_str_field(data, "device"@)->0)
}

/// The scan correlation state: which addresses are awaited, and which
/// `(ip, device)` pairs have answered so far.
pub struct ScanCollector {
    pub targets: Vec<String>,
    pub found: Vec<(String, String)>,
}

impl ScanCollector {
    /// Whether an address is in the configured list.
    pub open spec fn has_target(&self, ip: Seq<char>) -> bool {
        exists|i: int| 0 <= i < self.targets@.len() && self.targets@[i]@ == ip
    }

    /// The collected pairs, as character sequences.
    pub open spec fn found_views(&self) -> Seq<(Seq<char>, Seq<char>)> {
        self.found@.map_values(|p: (String, String)| (p.0@, p.1@))
    }

    /// Discovery is complete once as many answers are recorded as addresses
    /// were configured.
    pub open spec fn complete(&self) -> bool {
        self.found@.len() >= self.targets@.len()
    }

    /// A collector awaiting the configured addresses, with nothing found.
    pub fn new(targets: Vec<String>) -> (r: ScanCollector)
        ensures
            r.targets == targets,
            r.found@.len() == 0,
    {
        ScanCollector { targets, found: Vec::new() }
    }

    /// Records one scan answer: the pair is kept exactly when its address
    /// is configured.  Returns whether discovery is now complete.
    pub fn record(&mut self, ip: &String, mac: &String) -> (done: bool)
        ensures
            final(self).targets == old(self).targets,
            old(self).has_target(ip@) ==> final(self).found_views() == old(
                self,
            ).found_views().push((ip@, mac@)),
            !old(self).has_target(ip@) ==> final(self).found == old(self).found,
            done == final(self).complete(),
    {
        let mut i: usize = 0;
        let mut seen: bool = false;
        while i < self.targets.len()
            invariant
                i <= self.targets@.len(),
                seen == (exists|k: int| 0 <= k < i && self.targets@[k]@ == ip@),
            decreases self.targets@.len() - i,
        {
            if self.targets[i] == *ip {
                seen = true;
            }
            i = i + 1;
        }
        if seen {
            let ghost before = self.found_views();
            self.found.push((ip.clone(), mac.clone()));
            proof {
                assert(self.found_views() =~= before.push((ip@, mac@)));
            }
        }
        self.found.len() >= self.targets.len()
    }

    /// Feeds one received datagram in: a scan answer whose address is
    /// configured is recorded as the pair the datagram announced; anything
    /// else (a status answer, an unconfigured address, an undecodable
    /// payload) leaves the collection untouched.  Returns whether discovery
    /// is now complete.
    pub fn on_datagram(&mut self, text_msg: &str) -> (done: bool)
        ensures
            final(self).targets == old(self).targets,
            done == final(self).complete(),
            ({
                let doc = json::json_text_doc(text_msg@);
                if is_scan_answer(doc) && old(self).has_target(scan_pair(doc->0).0) {
                    final(self).found_views() == old(self).found_views().push(scan_pair(doc->0))
                } else {
                    final(self).found == old(self).found
                }
            }),
    {
        proof {
            reveal_strlit("scan");
            reveal_strlit("devStatus");
        }
        match parse_response(text_msg) {
            Ok(rm) => match rm.msg {
                Response::Scan(device) => self.record(&device.ip, &device.device),
                _ => self.found.len() >= self.targets.len(),
            },
            Err(_) => self.found.len() >= self.targets.len(),
        }
    }

    /// Law (scan timeout is success): ending the scan hands back whatever
    /// was collected — for a collector that saw no answers, the empty list,
    /// never an error.
    pub fn finish(self) -> (r: Vec<(String, String)>)
        ensures
            r == self.found,
            self.found@.len() == 0 ==> r@.len() == 0,
    {
        self.found
    }
}

/// Whether a datagram decodes to a status answer whose brightness is a
/// percentage — what building a light from it requires.
pub open spec fn status_light_decodes(doc: json::JsonValue) -> bool {
    &&& response_decodes(doc)
    &&& spec_cmd(doc) == Some("devStatus"@)
    &&& json::spec_int_field(spec_data(doc)->0, "brightness"@) matches Some(b) && b <= 100
}

/// How a decoded status answer fixes a light: address and identifier from
/// the caller, power by the integer-as-bool rule, brightness and RGB from
/// the answer's own fields.
pub open spec fn status_light(doc: json::JsonValue, ip: String, mac: String, l: GoveeLight) -> bool {
    let data = spec_data(doc)->0;
    let c = data.spec_get("color"@)->0;
    &&& l.ip == ip
    &&& l.id == mac
    &&& json::spec_truthy_field(data, "onOff"@) == Some(l.is_on)
    &&& json::spec_int_field(data, "brightness"@) == Some(l.brightness as i64)
    &&& json::spec_int_field(c, "r"@) == Some(l.red as i64)
    &&& json::spec_int_field(c, "g"@) == Some(l.green as i64)
    &&& json::spec_int_field(c, "b"@) == Some(l.blue as i64)
}

/// A handle onto one UDP-family bulb: its address and the cached state of
/// the last successful command.
pub struct GoveeLight {
    pub ip: String,
    pub is_on: bool,
    pub brightness: u8,
    pub red: u8,
    pub green: u8,
    pub blue: u8,
    pub id: String,
}

impl GoveeLight {
    /// Cached state the capability contract promises: brightness is a
    /// percentage.
    pub open spec fn wf(&self) -> bool {
        self.brightness <= 100
    }

    /// Builds a light from a decoded status answer.  A brightness beyond
    /// 100 is rejected as undecodable.
    pub fn from_status(ip: String, mac: String, status: &DeviceStatus) -> (r: Result<
        GoveeLight,
        LightError,
    >)
        ensures
            r is Ok <==> status.brightness <= 100,
            r matches Ok(l) ==> l.wf() && l.ip == ip && l.id == mac && l.is_on == status.on
                && l.brightness == status.brightness && l.red == status.color.r && l.green
                == status.color.g && l.blue == status.color.b,
            r is Err ==> r == Err::<GoveeLight, LightError>(LightError::Decode),
    {
        if status.brightness > 100 {
            return Err(LightError::Decode);
        }
        Ok(
            GoveeLight {
                ip,
                is_on: status.on,
                brightness: status.brightness,
                red: status.color.r,
                green: status.color.g,
                blue: status.color.b,
                id: mac,
            },
        )
    }

    /// Builds a light from the raw status answer datagram: success comes
    /// exactly when the bytes decode to a status answer whose brightness
    /// is a percentage, and each cached field is then fixed by the
    /// datagram's own fields.
    pub fn from_status_response(ip: String, mac: String, buf: &[u8]) -> (r: Result<
        GoveeLight,
        LightError,
    >)
        ensures
            r is Ok <==> (json::json_bytes_doc(buf@) matches Some(d) && status_light_decodes(d)),
            r matches Ok(l) ==> l.wf() && status_light(json::json_bytes_doc(buf@)->0, ip, mac, l),
            r is Err ==> r == Err::<GoveeLight, LightError>(LightError::Decode),
    {
        match parse_response_bytes(buf) {
            Ok(rm) => {
                proof {
                    reveal_strlit("scan");
                    reveal_strlit("devStatus");
                    let doc = json::json_bytes_doc(buf@)->0;
                    assert(response_decodes(doc));
                    assert(response_of(doc, rm));
                    assert(spec_cmd(doc)->0 == "scan"@ || spec_cmd(doc)->0 == "devStatus"@);
                    assert("scan"@.len() == 4);
                    assert("devStatus"@.len() == 9);
                    assert("scan"@ != "devStatus"@);
                    if rm.msg is DevStatus {
                        assert(spec_cmd(doc) != Some("scan"@));
                        assert(spec_cmd(doc) == Some("devStatus"@));
                    } else {
                        assert(spec_cmd(doc) == Some("scan"@));
                        assert(!status_light_decodes(doc));
                    }
                }
                match rm.msg {
                    Response::DevStatus(status) => GoveeLight::from_status(ip, mac, &status),
                    _ => Err(LightError::Decode),
                }
            },
            Err(e) => Err(e),
        }
    }

    /// The request that sets the power state.
    pub fn set_on_request(on: bool) -> (r: String)
        ensures
            r@ == spec_turn_message(
                if on {
                    1int
                } else {
                    0int
                },
            ),
    {
        let value: u8 = if on {
            1
        } else {
            0
        };
        render_request(&(Request::Turn { value }))
    }

    /// The request that sets the color (the color temperature rides along
    /// at a fixed 7200 K, as the protocol asks).
    pub fn set_color_request(red: u8, green: u8, blue: u8) -> (r: String)
        ensures
            r@ == spec_color_message(red as int, green as int, blue as int, 7200),
    {
        render_request(
            &(Request::Color {
                color: (DeviceColor { r: red, g: green, b: blue }),
                color_temperature_kelvin: 7200,
            }),
        )
    }

    /// The request that sets the brightness percentage.
    pub fn set_brightness_request(brightness: u8) -> (r: String)
        ensures
            r@ == spec_brightness_message(brightness as int),
    {
        render_request(&(Request::Brightness { value: brightness }))
    }

    /// The status query.
    pub fn status_request() -> (r: String)
        ensures
            r@ == spec_dev_status_message(),
    {
        render_request(&(Request::DevStatus {  }))
    }

    /// Law (cache coherence, power): on success the cached power state
    /// becomes the commanded one and nothing else moves; on failure the
    /// cache is untouched and the error is handed back.
    pub fn finish_set_on(&mut self, on: bool, ok: bool) -> (r: Result<(), LightError>)
        ensures
            ok ==> *final(self) == (GoveeLight { is_on: on, ..*old(self) }) && r is Ok,
            !ok ==> *final(self) == *old(self) && r == Err::<(), LightError>(
                LightError::Transport,
            ),
    {
        if ok {
            self.is_on = on;
            Ok(())
        } else {
            Err(LightError::Transport)
        }
    }

    /// Law (cache coherence, color): as [`Self::finish_set_on`], for the
    /// RGB triple.
    pub fn finish_set_color(&mut self, red: u8, green: u8, blue: u8, ok: bool) -> (r: Result<
        (),
        LightError,
    >)
        ensures
            ok ==> *final(self) == (GoveeLight { red, green, blue, ..*old(self) }) && r is Ok,
            !ok ==> *final(self) == *old(self) && r == Err::<(), LightError>(
                LightError::Transport,
            ),
    {
        if ok {
            self.red = red;
            self.green = green;
            self.blue = blue;
            Ok(())
        } else {
            Err(LightError::Transport)
        }
    }

    /// Law (cache coherence, brightness): as [`Self::finish_set_on`], for
    /// the brightness percentage.
    pub fn finish_set_brightness(&mut self, brightness: u8, ok: bool) -> (r: Result<
        (),
        LightError,
    >)
        requires
            brightness <= 100,
        ensures
            ok ==> *final(self) == (GoveeLight { brightness, ..*old(self) }) && r is Ok,
            !ok ==> *final(self) == *old(self) && r == Err::<(), LightError>(
                LightError::Transport,
            ),
    {
        if ok {
            self.brightness = brightness;
            Ok(())
        } else {
            Err(LightError::Transport)
        }
    }

    /// The vendor-qualified stable identifier.
    pub fn qualified_id(&self) -> (r: String)
        ensures
            r@ == "govee::"@ + self.id@,
    {
        String::from_str("govee::").concat(self.id.as_str())
    }

    /// The human name shown for this family: the identifier in a fixed
    /// dressing.
    pub fn display_name(&self) -> (r: String)
        ensures
            r@ == "Govee Light ("@ + self.id@ + ")"@,
    {
        let r = String::from_str("Govee Light (").concat(self.id.as_str()).concat(")");
        proof {
            assert(r@ =~= "Govee Light ("@ + self.id@ + ")"@);
        }
        r
    }
}

/// The UDP vendor family as an adapter.
pub struct GoveeIntegration;

impl GoveeIntegration {
    /// The family name that qualifies identifiers.
    pub fn name() -> (r: String)
        ensures
            r@ == "govee"@,
    {
        String::from_str("govee")
    }

    /// The family runs whenever it is enabled; the address list may be
    /// empty.
    pub fn preflight(config: &CuteLightsConfig) -> (r: bool)
        ensures
            r == config.govee.enabled,
    {
        config.govee.enabled
    }
}

} // verus!
