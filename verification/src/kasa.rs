//! The TCP-framed vendor family: an XOR-obfuscated, length-prefixed JSON
//! protocol spoken to bulbs on port 9999.
//!
//! Each message on the wire is a 4-byte big-endian length followed by the
//! payload run through a chained XOR stream seeded with 171.  The length
//! prefix itself is not obfuscated.  Requests are rendered here; the caller
//! owns the socket, sends the frame, and reads until [`KasaLight::response_complete`]
//! says the accumulated bytes decode to a complete JSON document.

use vstd::prelude::*;
use vstd::string::StringSliceAdditionalSpecFns;

use crate::color;
use crate::config::CuteLightsConfig;
use crate::json;
use crate::text;
use crate::LightError;

verus! {

/// The XOR key that seeds the stream.
pub open spec fn initial_key() -> u8 {
    171
}

/// The chained XOR encryption: each ciphertext byte is the previous
/// ciphertext byte (initially the key) XORed with the plaintext byte.
pub open spec fn xor_enc(key: u8, p: Seq<u8>) -> Seq<u8>
    decreases p.len(),
{
    if p.len() == 0 {
        Seq::empty()
    } else {
        let c = key ^ p[0];
        seq![c] + xor_enc(c, p.subrange(1, p.len() as int))
    }
}

/// The chained XOR decryption: each plaintext byte is the previous
/// ciphertext byte (initially the key) XORed with the current one.
pub open spec fn xor_dec(key: u8, c: Seq<u8>) -> Seq<u8>
    decreases c.len(),
{
    if c.len() == 0 {
        Seq::empty()
    } else {
        seq![key ^ c[0]] + xor_dec(c[0], c.subrange(1, c.len() as int))
    }
}

/// The key the encryption stream holds after consuming `s`.
pub open spec fn chain_key(key: u8, s: Seq<u8>) -> u8
    decreases s.len(),
{
    if s.len() == 0 {
        key
    } else {
        chain_key(key ^ s[0], s.subrange(1, s.len() as int))
    }
}

/// The 4-byte big-endian rendering of a 32-bit length.
pub open spec fn be32_of(n: u32) -> Seq<u8> {
    seq![
        (n as int / 0x1000000) as u8,
        ((n as int / 0x10000) % 0x100) as u8,
        ((n as int / 0x100) % 0x100) as u8,
        (n as int % 0x100) as u8,
    ]
}

/// The four big-endian digits of a 32-bit value recombine to it.
proof fn lemma_be32_round_trip(n: u32)
    ensures
        (be32_of(n)[0] as int) * 0x1000000 + (be32_of(n)[1] as int) * 0x10000 + (be32_of(
            n,
        )[2] as int) * 0x100 + (be32_of(n)[3] as int) == n as int,
{
    let x = n as int;
    assert(0xffffffffint / 0x1000000 == 255int) by {
        vstd::arithmetic::div_mod::lemma_fundamental_div_mod_converse(
            0xffffffff,
            0x1000000,
            255,
            0xffffff,
        );
    }
    vstd::arithmetic::div_mod::lemma_div_is_ordered(x, 0xffffffff, 0x1000000);
    vstd::arithmetic::div_mod::lemma_div_is_ordered(0, x, 0x1000000);
    vstd::arithmetic::div_mod::lemma_mod_bound(x / 0x10000, 0x100);
    vstd::arithmetic::div_mod::lemma_mod_bound(x / 0x100, 0x100);
    vstd::arithmetic::div_mod::lemma_mod_bound(x, 0x100);
    vstd::arithmetic::div_mod::lemma_fundamental_div_mod(x, 0x1000000);
    assert(x % 0x1000000 == 0x10000 * ((x / 0x10000) % 0x100) + x % 0x10000) by {
        vstd::arithmetic::div_mod::lemma_mod_breakdown(x, 0x10000, 0x100);
    }
    assert(x % 0x10000 == 0x100 * ((x / 0x100) % 0x100) + x % 0x100) by {
        vstd::arithmetic::div_mod::lemma_mod_breakdown(x, 0x100, 0x100);
    }
}

/// A whole frame: the big-endian length of the plaintext, then the XOR
/// stream.
pub open spec fn spec_encrypt(p: Seq<u8>) -> Seq<u8> {
    be32_of(p.len() as u32) + xor_enc(initial_key(), p)
}

/// What decryption recovers from a frame: the XOR stream after the prefix
/// is undone, cut down to the length the prefix names.
pub open spec fn spec_decrypt(enc: Seq<u8>) -> Seq<u8> {
    let body = xor_dec(initial_key(), enc.subrange(4, enc.len() as int));
    let n = (enc[0] as int) * 0x1000000 + (enc[1] as int) * 0x10000 + (enc[2] as int) * 0x100 + (
    enc[3] as int);
    if n <= body.len() {
        body.subrange(0, n)
    } else {
        body
    }
}

/// Appending one plaintext byte appends one ciphertext byte, XORed with the
/// chained key, and advances the chain to that ciphertext byte.
proof fn lemma_xor_enc_snoc(key: u8, s: Seq<u8>, x: u8)
    ensures
        xor_enc(key, s.push(x)) == xor_enc(key, s).push(chain_key(key, s) ^ x),
        chain_key(key, s.push(x)) == chain_key(key, s) ^ x,
    decreases s.len(),
{
    if s.len() == 0 {
        reveal_with_fuel(xor_enc, 2);
        reveal_with_fuel(chain_key, 2);
        assert(s.push(x).subrange(1, 1) =~= Seq::<u8>::empty());
        assert(s.push(x)[0] == x);
        assert(xor_enc(key, s.push(x)) =~= xor_enc(key, s).push(chain_key(key, s) ^ x));
    } else {
        let c = key ^ s[0];
        let tail = s.subrange(1, s.len() as int);
        assert(s.push(x).subrange(1, s.len() as int + 1) =~= tail.push(x));
        assert(s.push(x)[0] == s[0]);
        lemma_xor_enc_snoc(c, tail, x);
        assert(xor_enc(key, s.push(x)) =~= xor_enc(key, s).push(chain_key(key, s) ^ x));
    }
}

/// Appending one ciphertext byte appends one plaintext byte, XORed with the
/// previous ciphertext byte (or the key at the start).
proof fn lemma_xor_dec_snoc(key: u8, s: Seq<u8>, x: u8)
    ensures
        xor_dec(key, s.push(x)) == xor_dec(key, s).push(
            (if s.len() == 0 {
                key
            } else {
                s.last()
            }) ^ x,
        ),
    decreases s.len(),
{
    if s.len() == 0 {
        reveal_with_fuel(xor_dec, 2);
        assert(s.push(x).subrange(1, 1) =~= Seq::<u8>::empty());
        assert(s.push(x)[0] == x);
        assert(xor_dec(key, s.push(x)) =~= xor_dec(key, s).push(key ^ x));
    } else {
        let tail = s.subrange(1, s.len() as int);
        assert(s.push(x).subrange(1, s.len() as int + 1) =~= tail.push(x));
        assert(s.push(x)[0] == s[0]);
        lemma_xor_dec_snoc(s[0], tail, x);
        if tail.len() == 0 {
            assert(s.last() == s[0]);
        } else {
            assert(tail.last() == s.last());
        }
        assert(xor_dec(key, s.push(x)) =~= xor_dec(key, s).push(
            (if s.len() == 0 {
                key
            } else {
                s.last()
            }) ^ x,
        ));
    }
}

/// Decryption undoes encryption byte for byte, whatever the seed.
proof fn lemma_xor_dec_of_enc(key: u8, p: Seq<u8>)
    ensures
        xor_dec(key, xor_enc(key, p)) == p,
        xor_enc(key, p).len() == p.len(),
    decreases p.len(),
{
    if p.len() == 0 {
        assert(xor_dec(key, xor_enc(key, p)) =~= p);
    } else {
        let c = key ^ p[0];
        let tail = p.subrange(1, p.len() as int);
        lemma_xor_dec_of_enc(c, tail);
        let e = xor_enc(key, p);
        assert(e[0] == c);
        assert(e.subrange(1, e.len() as int) =~= xor_enc(c, tail));
        let p0 = p[0];
        assert(key ^ (key ^ p0) == p0) by (bit_vector);
        assert(xor_dec(key, e) =~= p);
    }
}

/// Law: the frame codec is a bijection on payloads.  For every byte string,
/// decrypting its encryption returns it unchanged; the frame is exactly four
/// bytes longer than the payload; the first four bytes are the big-endian
/// payload length; and the first ciphertext byte is `171 XOR` the first
/// plaintext byte.
pub proof fn lemma_codec_round_trip(p: Seq<u8>)
    requires
        p.len() <= 0xffffffff,
    ensures
        spec_decrypt(spec_encrypt(p)) == p,
        spec_encrypt(p).len() == p.len() + 4,
        spec_encrypt(p).subrange(0, 4) == be32_of(p.len() as u32),
        p.len() > 0 ==> spec_encrypt(p)[4] == (171 as u8) ^ p[0],
{
    let n = p.len() as u32;
    let e = spec_encrypt(p);
    lemma_xor_dec_of_enc(initial_key(), p);
    assert(e.subrange(4, e.len() as int) =~= xor_enc(initial_key(), p));
    assert(e.subrange(0, 4) =~= be32_of(n));
    lemma_be32_round_trip(n);
    assert(spec_decrypt(e) =~= p);
    if p.len() > 0 {
        assert(e[4] == xor_enc(initial_key(), p)[0]);
    }
}

/// Reads the 4-byte big-endian length out of a frame header.
fn read_be32(enc: &[u8]) -> (n: u32)
    requires
        enc@.len() >= 4,
    ensures
        n as int == (enc@[0] as int) * 0x1000000 + (enc@[1] as int) * 0x10000 + (enc@[2] as int)
            * 0x100 + (enc@[3] as int),
{
    let b0 = enc[0];
    let b1 = enc[1];
    let b2 = enc[2];
    let b3 = enc[3];
    (b0 as u32) * 0x1000000 + (b1 as u32) * 0x10000 + (b2 as u32) * 0x100 + (b3 as u32)
}

/// A handle onto one TCP-family bulb: its address and the cached state of
/// the last successful command.
pub struct KasaLight {
    pub ip: String,
    pub is_on: bool,
    pub brightness: u8,
    pub red: u8,
    pub green: u8,
    pub blue: u8,
    pub supports_color: bool,
    pub id: String,
    pub name: String,
}

impl KasaLight {
    /// Cached state the capability contract promises: brightness is a
    /// percentage.
    pub open spec fn wf(&self) -> bool {
        self.brightness <= 100
    }

    /// Encrypts a request: 4-byte big-endian length of the text, then the
    /// chained XOR stream over its bytes.
    pub fn encrypt(input: &str) -> (r: Vec<u8>)
        requires
            input.spec_bytes().len() <= 0xffffffff,
        ensures
            r@ == spec_encrypt(input.spec_bytes()),
            r@.len() == input.spec_bytes().len() + 4,
    {
        let bytes: &[u8] = input.as_bytes();
        let n: u32 = bytes.len() as u32;
        let mut result: Vec<u8> = Vec::new();
        proof {
            assert(0xffffffffint / 0x1000000 == 255int) by {
                vstd::arithmetic::div_mod::lemma_fundamental_div_mod_converse(
                    0xffffffff,
                    0x1000000,
                    255,
                    0xffffff,
                );
            }
            vstd::arithmetic::div_mod::lemma_div_is_ordered(n as int, 0xffffffff, 0x1000000);
            vstd::arithmetic::div_mod::lemma_div_is_ordered(0, n as int, 0x1000000);
        }
        result.push((n / 0x1000000) as u8);
        result.push(((n / 0x10000) % 0x100) as u8);
        result.push(((n / 0x100) % 0x100) as u8);
        result.push((n % 0x100) as u8);
        assert(result@ =~= be32_of(n));
        let mut key: u8 = 171;
        let mut i: usize = 0;
        proof {
            assert(bytes@.subrange(0, 0) =~= Seq::<u8>::empty());
            assert(result@ =~= be32_of(n) + xor_enc(171, bytes@.subrange(0, 0)));
        }
        while i < bytes.len()
            invariant
                i <= bytes@.len(),
                bytes@.len() <= 0xffffffff,
                n == bytes@.len() as u32,
                result@ == be32_of(n) + xor_enc(171, bytes@.subrange(0, i as int)),
                key == chain_key(171, bytes@.subrange(0, i as int)),
            decreases bytes@.len() - i,
        {
            let c: u8 = key ^ bytes[i];
            proof {
                lemma_xor_enc_snoc(171, bytes@.subrange(0, i as int), bytes@[i as int]);
                assert(bytes@.subrange(0, i + 1) =~= bytes@.subrange(0, i as int).push(
                    bytes@[i as int],
                ));
            }
            result.push(c);
            key = c;
            i = i + 1;
            assert(result@ =~= be32_of(n) + xor_enc(171, bytes@.subrange(0, i as int)));
        }
        proof {
            assert(bytes@.subrange(0, bytes@.len() as int) =~= bytes@);
            lemma_xor_dec_of_enc(171, bytes@);
        }
        result
    }

    /// Decrypts a frame: undoes the XOR stream after the 4-byte header and
    /// keeps the number of bytes the header names (everything, if the frame
    /// is shorter than announced).
    pub fn decrypt(encrypted_bytes: &[u8]) -> (r: Vec<u8>)
        requires
            encrypted_bytes@.len() >= 4,
        ensures
            r@ == spec_decrypt(encrypted_bytes@),
    {
        let length: u32 = read_be32(encrypted_bytes);
        let mut result: Vec<u8> = Vec::new();
        let mut key: u8 = 171;
        let mut i: usize = 4;
        let total: usize = encrypted_bytes.len();
        proof {
            assert(encrypted_bytes@.subrange(4, 4) =~= Seq::<u8>::empty());
            assert(result@ =~= xor_dec(171, encrypted_bytes@.subrange(4, 4)));
        }
        while i < total
            invariant
                4 <= i <= total,
                total == encrypted_bytes@.len(),
                result@ == xor_dec(171, encrypted_bytes@.subrange(4, i as int)),
                key == (if i == 4 {
                    171
                } else {
                    encrypted_bytes@[i - 1]
                }),
            decreases total - i,
        {
            let b = encrypted_bytes[i];
            let p: u8 = key ^ b;
            proof {
                lemma_xor_dec_snoc(171, encrypted_bytes@.subrange(4, i as int), b);
                assert(encrypted_bytes@.subrange(4, i + 1) =~= encrypted_bytes@.subrange(
                    4,
                    i as int,
                ).push(b));
                if i > 4 {
                    assert(encrypted_bytes@.subrange(4, i as int).last() == encrypted_bytes@[i
                        - 1]);
                }
            }
            result.push(p);
            key = b;
            i = i + 1;
            assert(result@ =~= xor_dec(171, encrypted_bytes@.subrange(4, i as int)));
        }
        proof {
            assert(encrypted_bytes@.subrange(4, total as int) =~= encrypted_bytes@.subrange(
                4,
                encrypted_bytes@.len() as int,
            ));
        }
        if (length as usize) < result.len() {
            result.truncate(length as usize);
            assert(result@ =~= spec_decrypt(encrypted_bytes@));
        } else {
            assert(result@ =~= spec_decrypt(encrypted_bytes@));
        }
        result
    }

    /// Whether an accumulated response buffer decodes to a complete JSON
    /// document — the read loop's termination test.
    pub fn response_complete(buffer: &Vec<u8>) -> (r: bool)
        ensures
            r == (buffer@.len() >= 4 && json::json_bytes_doc(spec_decrypt(buffer@)) is Some),
    {
        if buffer.len() < 4 {
            return false;
        }
        let decrypted = KasaLight::decrypt(buffer.as_slice());
        json::parse_bytes(decrypted.as_slice()).is_some()
    }

    /// The request that sets the power state.
    pub fn set_on_request(on: bool) -> (r: String)
        ensures
            r@ == spec_on_off_message(on),
    {
        on_off_message(on)
    }

    /// The request that sets the color: the RGB triple is converted to the
    /// hue/saturation/lightness the wire format speaks.
    pub fn set_color_request(red: u8, green: u8, blue: u8) -> (r: String)
        ensures
            ({
                let hsl = color::spec_rgb_to_hsl(red as int, green as int, blue as int);
                r@ == spec_color_message(hsl.0, hsl.1, hsl.2)
            }),
    {
        let (h, s, b) = color::rgb_to_hsv(red, green, blue);
        color_message(h, s, b)
    }

    /// The request that sets the brightness percentage.
    pub fn set_brightness_request(brightness: u8) -> (r: String)
        requires
            brightness <= 100,
        ensures
            r@ == spec_brightness_message(brightness as int),
    {
        brightness_message(brightness as i64)
    }

    /// Builds a light from the decoded system-information record.  The wire
    /// values are validated: brightness and saturation must be percentages
    /// and hue a degree value, else the record is rejected.
    pub fn from_state(
        ip: String,
        alias: String,
        mac: String,
        is_color: bool,
        on_off: bool,
        brightness: i64,
        hue: i64,
        saturation: i64,
    ) -> (r: Result<KasaLight, LightError>)
        ensures
            r is Ok <==> (0 <= brightness <= 100 && 0 <= hue <= 360 && 0 <= saturation <= 100),
            r matches Ok(l) ==> ({
                let rgb = color::spec_hsl_to_rgb(hue as int, saturation as int, brightness as int);
                &&& l.wf()
                &&& l.ip == ip
                &&& l.name == alias
                &&& l.id == mac
                &&& l.supports_color == is_color
                &&& l.is_on == on_off
                &&& l.brightness == brightness
                &&& l.red == rgb.0
                &&& l.green == rgb.1
                &&& l.blue == rgb.2
            }),
            r is Err ==> r == Err::<KasaLight, LightError>(LightError::Decode),
    {
        if !(0 <= brightness && brightness <= 100 && 0 <= hue && hue <= 360 && 0 <= saturation
            && saturation <= 100) {
            return Err(LightError::Decode);
        }
        let (red, green, blue) = color::hsv_to_rgb(hue, saturation, brightness);
        Ok(
            KasaLight {
                ip,
                is_on: on_off,
                brightness: brightness as u8,
                red,
                green,
                blue,
                supports_color: is_color,
                id: mac,
                name: alias,
            },
        )
    }

    /// Decodes a system-information response (already decrypted) and builds
    /// the light.  Success comes exactly when the bytes parse to a document
    /// whose sysinfo record is complete with in-range values, and every
    /// cached field is then fixed by that record; shape errors and
    /// out-of-range values are decode failures.
    pub fn from_sysinfo(ip: String, response: &[u8]) -> (r: Result<KasaLight, LightError>)
        ensures
            r is Ok <==> (json::json_bytes_doc(response@) matches Some(d) && sysinfo_decodes(d)),
            r matches Ok(l) ==> l.wf() && sysinfo_light(
                json::json_bytes_doc(response@)->0,
                ip,
                l,
            ),
            r is Err ==> r == Err::<KasaLight, LightError>(LightError::Decode),
    {
        let doc = match json::parse_bytes(response) {
            Some(v) => v,
            None => {
                return Err(LightError::Decode);
            },
        };
        let system = match doc.get("system") {
            Some(v) => v,
            None => {
                return Err(LightError::Decode);
            },
        };
        let state = match system.get("get_sysinfo") {
            Some(v) => v,
            None => {
                return Err(LightError::Decode);
            },
        };
        let alias = match json::get_str(state, "alias") {
            Some(s) => s,
            None => {
                return Err(LightError::Decode);
            },
        };
        let mac = match json::get_str(state, "mic_mac") {
            Some(s) => s,
            None => {
                return Err(LightError::Decode);
            },
        };
        let is_color = match json::get_truthy(state, "is_color") {
            Some(b) => b,
            None => {
                return Err(LightError::Decode);
            },
        };
        let light_state = match state.get("light_state") {
            Some(v) => v,
            None => {
                return Err(LightError::Decode);
            },
        };
        let on_off = match json::get_truthy(light_state, "on_off") {
            Some(b) => b,
            None => {
                return Err(LightError::Decode);
            },
        };
        let brightness = match optional_int(light_state, "brightness") {
            Ok(n) => n,
            Err(e) => {
                return Err(e);
            },
        };
        let hue = match optional_int(light_state, "hue") {
            Ok(n) => n,
            Err(e) => {
                return Err(e);
            },
        };
        let saturation = match optional_int(light_state, "saturation") {
            Ok(n) => n,
            Err(e) => {
                return Err(e);
            },
        };
        KasaLight::from_state(ip, alias, mac, is_color, on_off, brightness, hue, saturation)
    }

    /// Law (cache coherence, power): on success the cached power state
    /// becomes the commanded one and nothing else moves; on failure the
    /// cache is untouched and the error is handed back.
    pub fn finish_set_on(&mut self, on: bool, ok: bool) -> (r: Result<(), LightError>)
        ensures
            ok ==> *final(self) == (KasaLight { is_on: on, ..*old(self) }) && r is Ok,
            !ok ==> *final(self) == *old(self) && r == Err::<(), LightError>(
                LightError::Transport,
            ),
    {
        if ok {
            self.is_on = on;
            Ok(())
        } else {
            Err(LightError::Transport)
        }
    }

    /// Law (cache coherence, color): as [`Self::finish_set_on`], for the RGB
    /// triple.
    pub fn finish_set_color(&mut self, red: u8, green: u8, blue: u8, ok: bool) -> (r: Result<
        (),
        LightError,
    >)
        ensures
            ok ==> *final(self) == (KasaLight { red, green, blue, ..*old(self) }) && r is Ok,
            !ok ==> *final(self) == *old(self) && r == Err::<(), LightError>(
                LightError::Transport,
            ),
    {
        if ok {
            self.red = red;
            self.green = green;
            self.blue = blue;
            Ok(())
        } else {
            Err(LightError::Transport)
        }
    }

    /// Law (cache coherence, brightness): as [`Self::finish_set_on`], for
    /// the brightness percentage.
    pub fn finish_set_brightness(&mut self, brightness: u8, ok: bool) -> (r: Result<
        (),
        LightError,
    >)
        requires
            brightness <= 100,
        ensures
            ok ==> *final(self) == (KasaLight { brightness, ..*old(self) }) && r is Ok,
            !ok ==> *final(self) == *old(self) && r == Err::<(), LightError>(
                LightError::Transport,
            ),
    {
        if ok {
            self.brightness = brightness;
            Ok(())
        } else {
            Err(LightError::Transport)
        }
    }

    /// The vendor-qualified stable identifier.
    pub fn qualified_id(&self) -> (r: String)
        ensures
            r@ == "kasa::"@ + self.id@,
    {
        String::from_str("kasa::").concat(self.id.as_str())
    }
}

/// An optional integer field of a sysinfo light state: zero when the key
/// is missing, the integer when it is one, and nothing when the key holds
/// anything else.
pub open spec fn spec_opt_int(v: json::JsonValue, key: Seq<char>) -> Option<i64> {
    match v.spec_get(key) {
        Some(x) => x.spec_as_int(),
        None => Some(0),
    }
}

/// The sysinfo record inside a reply document.
pub open spec fn spec_sysinfo_state(doc: json::JsonValue) -> Option<json::JsonValue> {
    match doc.spec_get("system"@) {
        Some(sys) => sys.spec_get("get_sysinfo"@),
        None => None,
    }
}

/// Whether a reply document holds a complete sysinfo record with in-range
/// light-state values: alias and mic_mac strings, is_color and on_off
/// integer-as-bools, and brightness/hue/saturation integers (absent ones
/// count as zero) inside their percentage and degree ranges.
pub open spec fn sysinfo_decodes(doc: json::JsonValue) -> bool {
    let state_opt = spec_sysinfo_state(doc);
    state_opt matches Some(state) && {
        let ls_opt = state.spec_get("light_state"@);
        &&& json::spec_str_field(state, "alias"@) is Some
        &&& json::spec_str_field(state, "mic_mac"@) is Some
        &&& json::spec_truthy_field(state, "is_color"@) is Some
        &&& ls_opt matches Some(ls) && {
            &&& json::spec_truthy_field(ls, "on_off"@) is Some
            &&& spec_opt_int(ls, "brightness"@) matches Some(b) && 0 <= b <= 100
            &&& spec_opt_int(ls, "hue"@) matches Some(h) && 0 <= h <= 360
            &&& spec_opt_int(ls, "saturation"@) matches Some(s) && 0 <= s <= 100
        }
    }
}

/// How a decoded sysinfo record fixes a light: address from the caller,
/// name from the alias, identifier from the MAC, color capability and
/// power by the integer-as-bool rule, brightness as cached, and the RGB
/// cache converted from the record's hue/saturation/brightness.
pub open spec fn sysinfo_light(doc: json::JsonValue, ip: String, l: KasaLight) -> bool {
    let state = spec_sysinfo_state(doc)->0;
    let ls = state.spec_get("light_state"@)->0;
    let b = spec_opt_int(ls, "brightness"@)->0;
    let h = spec_opt_int(ls, "hue"@)->0;
    let s = spec_opt_int(ls, "saturation"@)->0;
    let rgb = color::spec_hsl_to_rgb(h as int, s as int, b as int);
    &&& l.ip == ip
    &&& json::spec_str_field(state, "alias"@) == Some(l.name@)
    &&& json::spec_str_field(state, "mic_mac"@) == Some(l.id@)
    &&& json::spec_truthy_field(state, "is_color"@) == Some(l.supports_color)
    &&& json::spec_truthy_field(ls, "on_off"@) == Some(l.is_on)
    &&& l.brightness == b
    &&& l.red == rgb.0 && l.green == rgb.1 && l.blue == rgb.2
}

/// Reads an optional integer field: a missing key defaults to zero, a
/// present key must be an integer.
fn optional_int(v: &json::JsonValue, key: &str) -> (r: Result<i64, LightError>)
    ensures
        match spec_opt_int(*v, key@) {
            Some(n) => r == Ok::<i64, LightError>(n),
            None => r == Err::<i64, LightError>(LightError::Decode),
        },
{
    match v.get(key) {
        Some(x) => match x.as_i64() {
            Some(n) => Ok(n),
            None => Err(LightError::Decode),
        },
        None => Ok(0),
    }
}

/// JSON text of the power request.
pub open spec fn spec_on_off_message(on: bool) -> Seq<char> {
    "{\"smartlife.iot.smartbulb.lightingservice\":{\"transition_light_state\":{\"on_off\":"@ + (
    if on {
        "1"@
    } else {
        "0"@
    }) + ",\"transition_period\":0}}}"@
}

/// JSON text of the brightness request.
pub open spec fn spec_brightness_message(brightness: int) -> Seq<char> {
    "{\"smartlife.iot.smartbulb.lightingservice\":{\"transition_light_state\":{\"brightness\":"@
        + text::spec_dec(brightness as nat) + ",\"on_off\":1,\"transition_period\":0}}}"@
}

/// JSON text of the color request, in hue/saturation/lightness terms.
pub open spec fn spec_color_message(h: int, s: int, b: int) -> Seq<char> {
    "{\"smartlife.iot.smartbulb.lightingservice\":{\"transition_light_state\":{\"brightness\":"@
        + text::spec_dec(b as nat) + ",\"hue\":"@ + text::spec_dec(h as nat) + ",\"on_off\":1,\"saturation\":"@
        + text::spec_dec(s as nat) + ",\"transition_period\":0}}}"@
}

/// JSON text of the system-information query.
pub open spec fn spec_sysinfo_message() -> Seq<char> {
    "{\"system\":{\"get_sysinfo\":{}}}"@
}

/// Renders the power request.
pub fn on_off_message(on: bool) -> (r: String)
    ensures
        r@ == spec_on_off_message(on),
{
    let digit: &str = if on {
        "1"
    } else {
        "0"
    };
    let r = String::from_str(
        "{\"smartlife.iot.smartbulb.lightingservice\":{\"transition_light_state\":{\"on_off\":",
    ).concat(digit).concat(",\"transition_period\":0}}}");
    proof {
        assert(r@ =~= spec_on_off_message(on));
    }
    r
}

/// Renders the color request.
pub fn color_message(h: i64, s: i64, b: i64) -> (r: String)
    requires
        0 <= h,
        0 <= s,
        0 <= b,
    ensures
        r@ == spec_color_message(h as int, s as int, b as int),
{
    let r = String::from_str(
        "{\"smartlife.iot.smartbulb.lightingservice\":{\"transition_light_state\":{\"brightness\":",
    ).concat(text::u64_to_string(b as u64).as_str()).concat(",\"hue\":").concat(
        text::u64_to_string(h as u64).as_str(),
    ).concat(",\"on_off\":1,\"saturation\":").concat(text::u64_to_string(s as u64).as_str()).concat(
        ",\"transition_period\":0}}}",
    );
    proof {
        assert(r@ =~= spec_color_message(h as int, s as int, b as int));
    }
    r
}

/// Renders the brightness request.
pub fn brightness_message(brightness: i64) -> (r: String)
    requires
        0 <= brightness,
    ensures
        r@ == spec_brightness_message(brightness as int),
{
    let r = String::from_str(
        "{\"smartlife.iot.smartbulb.lightingservice\":{\"transition_light_state\":{\"brightness\":",
    ).concat(text::u64_to_string(brightness as u64).as_str()).concat(
        ",\"on_off\":1,\"transition_period\":0}}}",
    );
    proof {
        assert(r@ =~= spec_brightness_message(brightness as int));
    }
    r
}

/// Renders the system-information query.
pub fn get_sysinfo_message() -> (r: String)
    ensures
        r@ == spec_sysinfo_message(),
{
    String::from_str("{\"system\":{\"get_sysinfo\":{}}}")
}

/// The TCP vendor family as an adapter.
pub struct KasaIntegration;

impl KasaIntegration {
    /// The family name that qualifies identifiers.
    pub fn name() -> (r: String)
        ensures
            r@ == "kasa"@,
    {
        String::from_str("kasa")
    }

    /// The family runs whenever it is enabled; the address list may be
    /// empty.
    pub fn preflight(config: &CuteLightsConfig) -> (r: bool)
        ensures
            r == config.kasa.enabled,
    {
        config.kasa.enabled
    }
}

} // verus!
