//! The polymorphic light handle: one cached-state capability surface over
//! the three vendor families.
//!
//! Identity is the vendor-qualified string `"<family>::<vendor-id>"`; two
//! handles are the same light exactly when family and vendor identifier
//! agree, which the injectivity law below states.

use vstd::prelude::*;

use crate::frame::Operation;
use crate::govee::GoveeLight;
use crate::hue::HueLight;
use crate::kasa::KasaLight;
use crate::LightError;

verus! {

/// A handle onto one controllable device, whatever its family.
pub enum Light {
    Hue(HueLight),
    Kasa(KasaLight),
    Govee(GoveeLight),
}

impl Light {
    /// Cached state the capability contract promises.
    pub open spec fn wf(&self) -> bool {
        match self {
            Light::Hue(l) => l.wf(),
            Light::Kasa(l) => l.wf(),
            Light::Govee(l) => l.wf(),
        }
    }

    /// The family half of the identifier.
    pub open spec fn family_name(&self) -> Seq<char> {
        match self {
            Light::Hue(_) => "hue"@,
            Light::Kasa(_) => "kasa"@,
            Light::Govee(_) => "govee"@,
        }
    }

    /// The vendor half of the identifier.
    pub open spec fn raw_id(&self) -> Seq<char> {
        match self {
            Light::Hue(l) => l.id@,
            Light::Kasa(l) => l.id@,
            Light::Govee(l) => l.id@,
        }
    }

    /// The vendor-qualified identifier.
    pub open spec fn spec_id(&self) -> Seq<char> {
        self.family_name() + "::"@ + self.raw_id()
    }

    /// The cached power state.
    pub open spec fn cached_is_on(&self) -> bool {
        match self {
            Light::Hue(l) => l.is_on,
            Light::Kasa(l) => l.is_on,
            Light::Govee(l) => l.is_on,
        }
    }

    /// The cached brightness percentage.
    pub open spec fn cached_brightness(&self) -> u8 {
        match self {
            Light::Hue(l) => l.brightness,
            Light::Kasa(l) => l.brightness,
            Light::Govee(l) => l.brightness,
        }
    }

    /// The cached red channel.
    pub open spec fn cached_red(&self) -> u8 {
        match self {
            Light::Hue(l) => l.red,
            Light::Kasa(l) => l.red,
            Light::Govee(l) => l.red,
        }
    }

    /// The cached green channel.
    pub open spec fn cached_green(&self) -> u8 {
        match self {
            Light::Hue(l) => l.green,
            Light::Kasa(l) => l.green,
            Light::Govee(l) => l.green,
        }
    }

    /// The cached blue channel.
    pub open spec fn cached_blue(&self) -> u8 {
        match self {
            Light::Hue(l) => l.blue,
            Light::Kasa(l) => l.blue,
            Light::Govee(l) => l.blue,
        }
    }

    /// Whether the device takes color commands (every UDP-family device
    /// does).
    pub open spec fn cached_supports_color(&self) -> bool {
        match self {
            Light::Hue(l) => l.supports_color,
            Light::Kasa(l) => l.supports_color,
            Light::Govee(_) => true,
        }
    }

    /// The vendor-qualified identifier, `"<family>::<vendor-id>"`.
    pub fn id(&self) -> (r: String)
        ensures
            r@ == self.spec_id(),
    {
        let r = match self {
            Light::Hue(l) => l.qualified_id(),
            Light::Kasa(l) => l.qualified_id(),
            Light::Govee(l) => l.qualified_id(),
        };
        proof {
            reveal_strlit("hue");
            reveal_strlit("kasa");
            reveal_strlit("govee");
            reveal_strlit("::");
            reveal_strlit("hue::");
            reveal_strlit("kasa::");
            reveal_strlit("govee::");
            assert(r@ =~= self.spec_id());
        }
        r
    }

    /// The cached power state; an infallible read.
    pub fn is_on(&self) -> (r: bool)
        ensures
            r == self.cached_is_on(),
    {
        match self {
            Light::Hue(l) => l.is_on,
            Light::Kasa(l) => l.is_on,
            Light::Govee(l) => l.is_on,
        }
    }

    /// The cached brightness percentage; an infallible read.
    pub fn brightness(&self) -> (r: u8)
        ensures
            r == self.cached_brightness(),
    {
        match self {
            Light::Hue(l) => l.brightness,
            Light::Kasa(l) => l.brightness,
            Light::Govee(l) => l.brightness,
        }
    }

    /// The cached red channel; an infallible read.
    pub fn red(&self) -> (r: u8)
        ensures
            r == self.cached_red(),
    {
        match self {
            Light::Hue(l) => l.red,
            Light::Kasa(l) => l.red,
            Light::Govee(l) => l.red,
        }
    }

    /// The cached green channel; an infallible read.
    pub fn green(&self) -> (r: u8)
        ensures
            r == self.cached_green(),
    {
        match self {
            Light::Hue(l) => l.green,
            Light::Kasa(l) => l.green,
            Light::Govee(l) => l.green,
        }
    }

    /// The cached blue channel; an infallible read.
    pub fn blue(&self) -> (r: u8)
        ensures
            r == self.cached_blue(),
    {
        match self {
            Light::Hue(l) => l.blue,
            Light::Kasa(l) => l.blue,
            Light::Govee(l) => l.blue,
        }
    }

    /// Whether the device takes color commands; an infallible read.
    pub fn supports_color(&self) -> (r: bool)
        ensures
            r == self.cached_supports_color(),
    {
        match self {
            Light::Hue(l) => l.supports_color,
            Light::Kasa(l) => l.supports_color,
            Light::Govee(_) => true,
        }
    }

    /// The human name.
    pub open spec fn spec_name(&self) -> Seq<char> {
        match self {
            Light::Hue(l) => l.name@,
            Light::Kasa(l) => l.name@,
            Light::Govee(l) => "Govee Light ("@ + l.id@ + ")"@,
        }
    }

    /// The human name; an infallible read.
    pub fn name(&self) -> (r: String)
        ensures
            r@ == self.spec_name(),
    {
        match self {
            Light::Hue(l) => l.name.clone(),
            Light::Kasa(l) => l.name.clone(),
            Light::Govee(l) => l.display_name(),
        }
    }

    /// The line shown for a light: `"Light: <name> (<id>)"`.
    pub fn describe(&self) -> (r: String)
        ensures
            r@ == "Light: "@ + self.spec_name() + " ("@ + self.spec_id() + ")"@,
    {
        let r = String::from_str("Light: ").concat(self.name().as_str()).concat(" (").concat(
            self.id().as_str(),
        ).concat(")");
        proof {
            assert(r@ =~= "Light: "@ + self.spec_name() + " ("@ + self.spec_id() + ")"@);
        }
        r
    }

    /// What a successful power command does to the cache: the power state
    /// becomes the commanded value and every other cached attribute keeps
    /// its value.
    pub open spec fn set_on_applied(pre: Light, post: Light, on: bool) -> bool {
        &&& post.cached_is_on() == on
        &&& post.cached_brightness() == pre.cached_brightness()
        &&& post.cached_red() == pre.cached_red()
        &&& post.cached_green() == pre.cached_green()
        &&& post.cached_blue() == pre.cached_blue()
        &&& post.spec_id() == pre.spec_id()
        &&& post.cached_supports_color() == pre.cached_supports_color()
        &&& (post.wf() <==> pre.wf())
    }

    /// What a successful color command does to the cache.
    pub open spec fn set_color_applied(pre: Light, post: Light, red: u8, green: u8, blue: u8) -> bool {
        &&& post.cached_red() == red
        &&& post.cached_green() == green
        &&& post.cached_blue() == blue
        &&& post.cached_is_on() == pre.cached_is_on()
        &&& post.cached_brightness() == pre.cached_brightness()
        &&& post.spec_id() == pre.spec_id()
        &&& post.cached_supports_color() == pre.cached_supports_color()
        &&& (post.wf() <==> pre.wf())
    }

    /// What a successful brightness command does to the cache.
    pub open spec fn set_brightness_applied(pre: Light, post: Light, brightness: u8) -> bool {
        &&& post.cached_brightness() == brightness
        &&& post.cached_is_on() == pre.cached_is_on()
        &&& post.cached_red() == pre.cached_red()
        &&& post.cached_green() == pre.cached_green()
        &&& post.cached_blue() == pre.cached_blue()
        &&& post.spec_id() == pre.spec_id()
        &&& post.cached_supports_color() == pre.cached_supports_color()
    }

    /// Law (cache coherence, power): on success the cached power state
    /// becomes the commanded value and every other cached attribute keeps
    /// its value; on failure the handle is untouched and the error comes
    /// back.
    pub fn finish_set_on(&mut self, on: bool, ok: bool) -> (r: Result<(), LightError>)
        ensures
            ok ==> r is Ok && Light::set_on_applied(*old(self), *final(self), on),
            !ok ==> *final(self) == *old(self) && r == Err::<(), LightError>(
                LightError::Transport,
            ),
    {
        match self {
            Light::Hue(l) => l.finish_set_on(on, ok),
            Light::Kasa(l) => l.finish_set_on(on, ok),
            Light::Govee(l) => l.finish_set_on(on, ok),
        }
    }

    /// Law (cache coherence, color): as [`Self::finish_set_on`], for the
    /// RGB triple.
    pub fn finish_set_color(&mut self, red: u8, green: u8, blue: u8, ok: bool) -> (r: Result<
        (),
        LightError,
    >)
        ensures
            ok ==> r is Ok && Light::set_color_applied(*old(self), *final(self), red, green, blue),
            !ok ==> *final(self) == *old(self) && r == Err::<(), LightError>(
                LightError::Transport,
            ),
    {
        match self {
            Light::Hue(l) => l.finish_set_color(red, green, blue, ok),
            Light::Kasa(l) => l.finish_set_color(red, green, blue, ok),
            Light::Govee(l) => l.finish_set_color(red, green, blue, ok),
        }
    }

    /// Law (cache coherence, brightness): as [`Self::finish_set_on`], for
    /// the brightness percentage.
    pub fn finish_set_brightness(&mut self, brightness: u8, ok: bool) -> (r: Result<
        (),
        LightError,
    >)
        requires
            brightness <= 100,
        ensures
            ok ==> r is Ok && Light::set_brightness_applied(*old(self), *final(self), brightness)
                && final(self).wf(),
            !ok ==> *final(self) == *old(self) && r == Err::<(), LightError>(
                LightError::Transport,
            ),
    {
        match self {
            Light::Hue(l) => l.finish_set_brightness(brightness, ok),
            Light::Kasa(l) => l.finish_set_brightness(brightness, ok),
            Light::Govee(l) => l.finish_set_brightness(brightness, ok),
        }
    }

    /// Finishes one prepared operation against this handle: on success the
    /// cache moves exactly as the operation's kind and arguments say, and a
    /// failure comes back as an error the batch executor is free to drop.
    pub fn finish_operation(&mut self, op: &Operation, ok: bool) -> (r: Result<(), LightError>)
        requires
            op.wf(),
        ensures
            !ok ==> *final(self) == *old(self) && r == Err::<(), LightError>(
                LightError::Transport,
            ),
            ok ==> r is Ok && (match *op {
                Operation::SetOn(_, on) => Light::set_on_applied(*old(self), *final(self), on),
                Operation::SetBrightness(_, b) => Light::set_brightness_applied(
                    *old(self),
                    *final(self),
                    b,
                ),
                Operation::SetColor(_, red, green, blue) => Light::set_color_applied(
                    *old(self),
                    *final(self),
                    red,
                    green,
                    blue,
                ),
            }),
            final(self).spec_id() == old(self).spec_id(),
    {
        match op {
            Operation::SetOn(_, on) => self.finish_set_on(*on, ok),
            Operation::SetBrightness(_, b) => self.finish_set_brightness(*b, ok),
            Operation::SetColor(_, red, green, blue) => self.finish_set_color(
                *red,
                *green,
                *blue,
                ok,
            ),
        }
    }
}

impl PartialEq for Light {
    /// Equality of handles is equality of identifiers, as the capability
    /// contract defines it.
    fn eq(&self, other: &Light) -> (r: bool) {
        let a = self.id();
        let b = other.id();
        let r = a == b;
        proof {
            lemma_id_injective(self, other);
        }
        r
    }
}

impl vstd::std_specs::cmp::PartialEqSpecImpl for Light {
    open spec fn obeys_eq_spec() -> bool {
        true
    }

    open spec fn eq_spec(&self, other: &Light) -> bool {
        self.spec_id() == other.spec_id()
    }
}

/// Law (identity): every identifier begins with its family name and `"::"`,
/// and two handles carry the same identifier exactly when both the family
/// and the vendor identifier agree.
pub proof fn lemma_id_injective(a: &Light, b: &Light)
    ensures
        (a.spec_id() == b.spec_id()) <==> (a.family_name() == b.family_name() && a.raw_id()
            == b.raw_id()),
{
    reveal_strlit("hue");
    reveal_strlit("kasa");
    reveal_strlit("govee");
    reveal_strlit("::");
    if a.family_name() == b.family_name() && a.raw_id() == b.raw_id() {
        assert(a.spec_id() == b.spec_id());
    }
    if a.spec_id() == b.spec_id() {
        let fa = a.family_name();
        let fb = b.family_name();
        assert(a.spec_id()[0] == fa[0]);
        assert(b.spec_id()[0] == fb[0]);
        if fa.len() == fb.len() {
            assert(fa =~= fb);
            assert(a.raw_id() =~= b.raw_id()) by {
                let n = fa.len() as int;
                assert(a.spec_id().subrange(n + 2, a.spec_id().len() as int) =~= a.raw_id());
                assert(b.spec_id().subrange(n + 2, b.spec_id().len() as int) =~= b.raw_id());
            }
        } else {
            assert(fa[0] == fb[0]);
            assert(false);
        }
    }
}

/// Law (identity over a discovery result): when no two lights of one
/// family share a vendor identifier, no two lights share a qualified
/// identifier.
pub proof fn lemma_ids_unique(lights: Seq<Light>)
    requires
        forall|i: int, j: int|
            0 <= i < lights.len() && 0 <= j < lights.len() && i != j && #[trigger] lights[i].family_name()
                == #[trigger] lights[j].family_name() ==> lights[i].raw_id() != lights[j].raw_id(),
    ensures
        forall|i: int, j: int|
            0 <= i < lights.len() && 0 <= j < lights.len() && i != j ==> #[trigger] lights[i].spec_id()
                != #[trigger] lights[j].spec_id(),
{
    assert forall|i: int, j: int|
        0 <= i < lights.len() && 0 <= j < lights.len() && i != j implies #[trigger] lights[i].spec_id()
        != #[trigger] lights[j].spec_id() by {
        lemma_id_injective(&lights[i], &lights[j]);
    }
}

} // verus!
