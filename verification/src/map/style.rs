//! What the buildings look like: the layers they are split into, how high each
//! one stands, and the light over them all.
use vstd::prelude::*;
use vstd::string::*;

use crate::audio::BINS;
use crate::json::{plain, quote};
use crate::scalar::{number, Scalar, ZERO};
use crate::text::{
    decimal, digit_value, digits_value, lower_hex, push_hex_digit, write_decimal,
    written_digits_read_back,
};

verus! {

/// The buildings' colour. Flat: the style's light is what tints the scene with
/// the music.
pub const BUILDING_COLOR: &'static str = "#aaa";

/// The vector source that holds building footprints.
pub const BUILDING_SOURCE: &'static str = "openmaptiles";

/// The layer of that source they are in.
pub const BUILDING_SOURCE_LAYER: &'static str = "building";

/// The height of the tallest buildings that are told apart, in half-metres.
/// Buildings are split into layers by their true height, so each frequency band
/// drives its own slice of the skyline.
pub const MAX_BUILDING_HALF_METRES: u32 = 400;

/// How much of that range one layer takes up, in half-metres.
pub const LAYER_HALF_METRES: u128 = 25;

/// The bit pattern of 2: a band counts as unchanged until its target moves by
/// at least this many metres.
pub const HEIGHT_EPSILON: u64 = 0x4000_0000_0000_0000;

/// The bit pattern of 4: nor does the light's hue until it moves by this many
/// degrees,
pub const HUE_EPSILON: u64 = 0x4010_0000_0000_0000;

/// the bit pattern of 2: its saturation by this many percent,
pub const SATURATION_EPSILON: u64 = 0x4000_0000_0000_0000;

/// and the bit pattern of 0.02: its intensity by this much.
pub const INTENSITY_EPSILON: u64 = 0x3f94_7ae1_47ae_147b;

/// The bit pattern of 0.6, how opaque a building is.
pub const BUILDING_OPACITY: u64 = 0x3fe3_3333_3333_3333;

/// One frequency band's contribution to the skyline. Only the height: the
/// colour comes from the style's light, which follows the music too.
#[derive(Clone, Copy, Debug, PartialEq, Eq, Structural)]
pub struct Band {
    /// Extrusion height in metres.
    pub height: Scalar,
}

/// The style's light.
#[derive(Clone, Copy, Debug, PartialEq, Eq, Structural)]
pub struct Light {
    /// Hue in degrees.
    pub hue: Scalar,
    /// Saturation in percent.
    pub saturation: Scalar,
    /// From 0 to 1.
    pub intensity: Scalar,
}

/// One band's extrusion layer, as the style is told of it. Its paint is
/// constant: paint that depended on the building would be worked out for each
/// building every frame.
#[derive(Debug)]
pub struct BuildingLayer {
    pub id: String,
    pub source: &'static str,
    pub source_layer: &'static str,
    /// Buildings higher than this belong to the layer, in half-metres,
    pub above: u128,
    /// and no higher than this.
    pub up_to: u128,
    pub color: &'static str,
    pub height: Scalar,
    pub opacity: Scalar,
}

/// Whether a difference is too small to be worth showing.
pub open spec fn negligible(difference: Scalar, epsilon: u64) -> bool {
    difference.unsigned().below(number(epsilon))
}

/// Whether a difference is too small to be worth showing.
fn is_negligible(difference: Scalar, epsilon: u64) -> (r: bool)
    ensures
        r == negligible(difference, epsilon),
{
    difference.abs().less(Scalar { bits: epsilon })
}

impl Band {
    /// A band at rest.
    pub open spec fn flat() -> Band {
        Band { height: number(ZERO) }
    }

    /// Whether two bands are the same.
    pub open spec fn equals(self, other: Band) -> bool {
        self.height.equals(other.height)
    }

    /// Whether two bands are the same.
    pub fn same(self, other: Band) -> (r: bool)
        ensures
            r == self.equals(other),
    {
        self.height.same(other.height)
    }

    /// Whether two bands that differ in height by this much look the same.
    pub fn close_to(difference: Scalar) -> (r: bool)
        ensures
            r == negligible(difference, HEIGHT_EPSILON),
    {
        is_negligible(difference, HEIGHT_EPSILON)
    }
}

impl Default for Band {
    fn default() -> (r: Band)
        ensures
            r == Band::flat(),
    {
        Band { height: Scalar { bits: ZERO } }
    }
}

impl Light {
    /// No light.
    pub open spec fn dark() -> Light {
        Light { hue: number(ZERO), saturation: number(ZERO), intensity: number(ZERO) }
    }

    /// Whether two lights are the same.
    pub open spec fn equals(self, other: Light) -> bool {
        self.hue.equals(other.hue) && self.saturation.equals(other.saturation)
            && self.intensity.equals(other.intensity)
    }

    /// Whether two lights that differ by this much look the same.
    pub open spec fn close(difference: Light) -> bool {
        negligible(difference.hue, HUE_EPSILON) && negligible(
            difference.saturation,
            SATURATION_EPSILON,
        ) && negligible(difference.intensity, INTENSITY_EPSILON)
    }

    /// Whether two lights are the same.
    pub fn same(self, other: Light) -> (r: bool)
        ensures
            r == self.equals(other),
    {
        self.hue.same(other.hue) && self.saturation.same(other.saturation) && self.intensity.same(
            other.intensity,
        )
    }

    /// Whether a change is too small to be worth sending to the style, given
    /// the difference in each field.
    pub fn close_to(difference: Light) -> (r: bool)
        ensures
            r == Light::close(difference),
    {
        is_negligible(difference.hue, HUE_EPSILON) && is_negligible(
            difference.saturation,
            SATURATION_EPSILON,
        ) && is_negligible(difference.intensity, INTENSITY_EPSILON)
    }
}

impl Default for Light {
    fn default() -> (r: Light)
        ensures
            r == Light::dark(),
    {
        let zero = Scalar { bits: ZERO };
        Light { hue: zero, saturation: zero, intensity: zero }
    }
}

/// The name of a band's layer.
pub open spec fn layer_id(band: nat) -> Seq<char> {
    "3d-buildings-"@ + decimal(band)
}

/// The name of a band's layer.
pub fn building_layer_id(band: usize) -> (r: String)
    ensures
        r@ == layer_id(band as nat),
{
    let mut id = "3d-buildings-".to_owned();
    id.append(write_decimal(band as u64).as_str());
    id
}

/// One band's extrusion layer. Each band filters buildings by their true height
/// so the skyline is split into as many slices as there are bands. The paint is
/// only the resting state; the animation sets it in place.
pub fn building_layer_json(band: usize, id: &str) -> (r: BuildingLayer)
    requires
        band < usize::MAX,
    ensures
        r.id@ == id@,
        r.source@ == BUILDING_SOURCE@,
        r.source_layer@ == BUILDING_SOURCE_LAYER@,
        r.above == band * (MAX_BUILDING_HALF_METRES as int / BINS as int),
        r.up_to == (band + 1) * (MAX_BUILDING_HALF_METRES as int / BINS as int),
        r.color@ == BUILDING_COLOR@,
        r.height == Band::flat().height,
        r.opacity == number(BUILDING_OPACITY),
{
    BuildingLayer {
        id: id.to_owned(),
        source: BUILDING_SOURCE,
        source_layer: BUILDING_SOURCE_LAYER,
        above: band as u128 * LAYER_HALF_METRES,
        up_to: (band as u128 + 1) * LAYER_HALF_METRES,
        color: BUILDING_COLOR,
        height: Scalar { bits: ZERO },
        opacity: Scalar { bits: BUILDING_OPACITY },
    }
}

/// Whether a building `height / scale` half-metres high belongs to a band's
/// layer.
pub open spec fn belongs(height: int, scale: int, band: int) -> bool {
    band * LAYER_HALF_METRES * scale < height <= (band + 1) * LAYER_HALF_METRES * scale
}

/// Every building that is higher than the ground and no higher than the tallest
/// ones told apart belongs to exactly one layer, whatever fraction of a
/// half-metre its height comes to.
pub proof fn every_building_has_one_layer(height: int, scale: int)
    requires
        scale > 0,
        0 < height <= MAX_BUILDING_HALF_METRES * scale,
    ensures
        exists|band: int| 0 <= band < BINS && belongs(height, scale, band),
        forall|a: int, b: int|
            belongs(height, scale, a) && belongs(height, scale, b) ==> a == b,
{
    let width = LAYER_HALF_METRES * scale;
    let band = (height - 1) / width;
    assert(band * width <= height - 1 < (band + 1) * width && 0 <= band < BINS) by (nonlinear_arith)
        requires
            width == 25 * scale,
            scale > 0,
            0 < height <= 400 * scale,
            band == (height - 1) / width,
            BINS == 16,
    ;
    assert(band * LAYER_HALF_METRES * scale == band * width) by (nonlinear_arith)
        requires
            width == LAYER_HALF_METRES * scale,
    ;
    assert((band + 1) * LAYER_HALF_METRES * scale == (band + 1) * width) by (nonlinear_arith)
        requires
            width == LAYER_HALF_METRES * scale,
    ;
    assert(belongs(height, scale, band));
    assert forall|a: int, b: int|
        belongs(height, scale, a) && belongs(height, scale, b) implies a == b by {
        assert(a == b) by (nonlinear_arith)
            requires
                scale > 0,
                a * LAYER_HALF_METRES * scale < height <= (a + 1) * LAYER_HALF_METRES * scale,
                b * LAYER_HALF_METRES * scale < height <= (b + 1) * LAYER_HALF_METRES * scale,
        ;
    }
}

/// Two lower-case hexadecimal digits for a byte.
pub open spec fn hex_pair(b: u8) -> Seq<char> {
    seq![lower_hex(b as int / 16), lower_hex(b as int % 16)]
}

/// A colour as the style writes it.
pub open spec fn color_text(red: u8, green: u8, blue: u8) -> Seq<char> {
    seq!['#'] + hex_pair(red) + hex_pair(green) + hex_pair(blue)
}

/// A colour as the style writes it.
pub fn hex_color(red: u8, green: u8, blue: u8) -> (r: String)
    ensures
        r@ == color_text(red, green, blue),
{
    let mut out = String::new();
    out.push('#');
    push_hex_digit(&mut out, red / 16);
    push_hex_digit(&mut out, red % 16);
    push_hex_digit(&mut out, green / 16);
    push_hex_digit(&mut out, green % 16);
    push_hex_digit(&mut out, blue / 16);
    push_hex_digit(&mut out, blue % 16);
    proof {
        assert(out@ =~= color_text(red, green, blue));
    }
    out
}

/// A colour as a property of the style is set to it: a JSON text.
pub fn color_property(red: u8, green: u8, blue: u8) -> (r: String)
    ensures
        r@ == seq!['"'] + color_text(red, green, blue) + seq!['"'],
{
    let color = hex_color(red, green, blue);
    proof {
        assert(plain(color@));
    }
    quote(color.as_str())
}

/// The strength of red, green and blue in one sixth of the colour wheel, given
/// the strongest and the second strongest of the three.
pub open spec fn wheel(sextant: u32, strongest: Scalar, second: Scalar) -> (Scalar, Scalar, Scalar) {
    let none = number(ZERO);
    if sextant == 0 {
        (strongest, second, none)
    } else if sextant == 1 {
        (second, strongest, none)
    } else if sextant == 2 {
        (none, strongest, second)
    } else if sextant == 3 {
        (none, second, strongest)
    } else if sextant == 4 {
        (second, none, strongest)
    } else {
        (strongest, none, second)
    }
}

/// Which of red, green and blue is strongest, second and missing in one sixth
/// of the colour wheel.
pub fn hue_sextant(sextant: u32, strongest: Scalar, second: Scalar) -> (r: (Scalar, Scalar, Scalar))
    ensures
        r == wheel(sextant, strongest, second),
{
    let none = Scalar { bits: ZERO };
    match sextant {
        0 => (strongest, second, none),
        1 => (second, strongest, none),
        2 => (none, strongest, second),
        3 => (none, second, strongest),
        4 => (second, none, strongest),
        _ => (strongest, none, second),
    }
}

/// A size held to at least a pixel each way.
pub open spec fn drawable(width: u32, height: u32) -> (u32, u32) {
    (
        if width == 0 {
            1
        } else {
            width
        },
        if height == 0 {
            1
        } else {
            height
        },
    )
}

/// A map is never less than a pixel wide or high.
pub fn safe_size(width: u32, height: u32) -> (r: (u32, u32))
    ensures
        r == drawable(width, height),
{
    (
        if width == 0 {
            1
        } else {
            width
        },
        if height == 0 {
            1
        } else {
            height
        },
    )
}

/// A difference is too small to be worth showing exactly when it lies between
/// the threshold and its opposite, so it does not matter which of the two was
/// the larger.
pub proof fn small_differences_lie_near_zero(difference: Scalar, epsilon: u64)
    requires
        0 < epsilon <= 0x7ff0_0000_0000_0000,
    ensures
        negligible(difference, epsilon) <==> number(epsilon).opposite().below(difference)
            && difference.below(number(epsilon)),
        negligible(difference.opposite(), epsilon) <==> negligible(difference, epsilon),
        negligible(number(0), epsilon),
{
}

/// A light that differs noticeably in any one of hue, saturation and intensity
/// is worth setting: by four degrees, two percent or a fiftieth. One that
/// differs in none of them is not.
pub proof fn a_noticeable_light_is_set(difference: Light)
    ensures
        !difference.hue.unsigned().below(number(0x4010_0000_0000_0000)) ==> !Light::close(
            difference,
        ),
        !difference.saturation.unsigned().below(number(0x4000_0000_0000_0000)) ==> !Light::close(
            difference,
        ),
        !difference.intensity.unsigned().below(number(0x3f94_7ae1_47ae_147b)) ==> !Light::close(
            difference,
        ),
        difference.hue.unsigned().below(number(0x4010_0000_0000_0000))
            && difference.saturation.unsigned().below(number(0x4000_0000_0000_0000))
            && difference.intensity.unsigned().below(number(0x3f94_7ae1_47ae_147b))
            ==> Light::close(difference),
{
}

/// Two lights are the same only where none of the three numbers differs, and two
/// bands only where their heights do not.
pub proof fn any_change_makes_another_light(a: Light, b: Light, low: Band, high: Band)
    ensures
        !a.hue.equals(b.hue) ==> !a.equals(b),
        !a.saturation.equals(b.saturation) ==> !a.equals(b),
        !a.intensity.equals(b.intensity) ==> !a.equals(b),
        !a.hue.nan() && !a.saturation.nan() && !a.intensity.nan() ==> a.equals(a),
        low.equals(high) <==> low.height.equals(high.height),
        Band::flat().height.bits == 0,
        Light::dark().hue.bits == 0,
        Light::dark().saturation.bits == 0,
        Light::dark().intensity.bits == 0,
{
}

/// The colour wheel turns through red, green and blue: each of them is strongest
/// for two sextants in a row, red around 0 degrees, green around 120 and blue
/// around 240, and missing in the two sextants opposite. The third one is second.
pub proof fn the_wheel_turns_through_the_colours(sextant: u32, strongest: Scalar, second: Scalar)
    ensures
        ({
            let (red, green, blue) = wheel(sextant, strongest, second);
            let none = number(0);
            &&& sextant == 0 || sextant >= 5 ==> red == strongest
            &&& sextant == 1 || sextant == 2 ==> green == strongest
            &&& sextant == 3 || sextant == 4 ==> blue == strongest
            &&& sextant == 2 || sextant == 3 ==> red == none
            &&& sextant == 4 || sextant >= 5 ==> green == none
            &&& sextant == 0 || sextant == 1 ==> blue == none
            &&& sextant == 1 || sextant == 4 ==> red == second
            &&& sextant == 0 || sextant == 3 ==> green == second
            &&& sextant == 2 || sextant >= 5 ==> blue == second
        }),
{
}

/// The colour turns smoothly: neighbouring sextants agree at the edge they
/// share, all the way round. Coming to an odd edge the second colour has caught
/// up with the strongest, and is the strongest beyond it; coming to an even one
/// it has faded out.
pub proof fn the_wheel_has_no_seams(sextant: u32, strongest: Scalar)
    requires
        sextant < 6,
    ensures
        ({
            let next = ((sextant + 1) % 6) as u32;
            let edge = if sextant % 2 == 0 {
                strongest
            } else {
                number(0)
            };
            wheel(sextant, strongest, edge) == wheel(next, strongest, edge)
        }),
        forall|second: Scalar, other: Scalar|
            #![trigger wheel(sextant, strongest, second), wheel(((sextant + 1) % 6) as u32, strongest, other)]
            sextant % 2 == 0 && second != strongest && second != number(0) ==> {
                let here = wheel(sextant, strongest, second);
                let there = wheel(((sextant + 1) % 6) as u32, strongest, other);
                &&& here.0 == second ==> there.0 == strongest
                &&& here.1 == second ==> there.1 == strongest
                &&& here.2 == second ==> there.2 == strongest
            },
{
}

/// A colour's text gives its three bytes back: a hash, and two hexadecimal
/// digits for each of red, green and blue, all in lower case.
pub proof fn a_colour_reads_back(red: u8, green: u8, blue: u8)
    ensures
        ({
            let text = color_text(red, green, blue);
            &&& text.len() == 7
            &&& text[0] == '#'
            &&& digit_value(text[1]) * 16 + digit_value(text[2]) == red
            &&& digit_value(text[3]) * 16 + digit_value(text[4]) == green
            &&& digit_value(text[5]) * 16 + digit_value(text[6]) == blue
            &&& forall|i: int| 1 <= i < 7 ==> 0 <= digit_value(text[i]) && !('A' <= text[i] <= 'F')
        }),
{
}

/// Every layer has a name of its own, which says which band it is.
pub proof fn layers_have_names_of_their_own(band: nat, other: nat)
    ensures
        layer_id(band).take(13) == seq![
            '3', 'd', '-', 'b', 'u', 'i', 'l', 'd', 'i', 'n', 'g', 's', '-',
        ],
        digits_value(layer_id(band).skip(13)) == Some(band),
        layer_id(band) == layer_id(other) ==> band == other,
{
    reveal_strlit("3d-buildings-");
    written_digits_read_back(band);
    written_digits_read_back(other);
    assert(layer_id(band).skip(13) =~= decimal(band));
    assert(layer_id(other).skip(13) =~= decimal(other));
    assert(layer_id(band).take(13) =~= "3d-buildings-"@);
}

/// A map is a pixel or more each way, and as large as asked for where that is
/// so, each way on its own.
pub proof fn a_size_can_be_drawn(width: u32, height: u32)
    ensures
        drawable(width, height).0 >= 1,
        drawable(width, height).1 >= 1,
        width >= 1 ==> drawable(width, height).0 == width,
        height >= 1 ==> drawable(width, height).1 == height,
        width == 0 ==> drawable(width, height).0 == 1,
        height == 0 ==> drawable(width, height).1 == 1,
{
}

} // verus!
