//! Colors as hue, saturation and lightness in fixed point, and the colors
//! that the harmony rules derive from them.

use vstd::prelude::*;

verus! {

/// Hue units in a full turn of the hue wheel: one unit is a thousandth of a degree.
pub const HUE_CIRCLE: u32 = 360_000;

/// Hue units in half a turn.
pub const HALF_CIRCLE: u32 = 180_000;

/// Hue units in one degree.
pub const DEGREE: u32 = 1_000;

/// Full saturation and full lightness: both are counted in parts per million.
pub const UNIT: u32 = 1_000_000;

/// The mathematical model of a color: a point of the HSL cylinder.
pub struct Hsl {
    pub hue: int,
    pub saturation: int,
    pub lightness: int,
}

impl Hsl {
    /// The hue lies on the wheel, saturation and lightness between none and full.
    pub open spec fn valid(self) -> bool {
        &&& 0 <= self.hue < HUE_CIRCLE
        &&& 0 <= self.saturation <= UNIT
        &&& 0 <= self.lightness <= UNIT
    }

    /// The color whose hue lies `angle` units further round the wheel.
    /// A negative angle turns the other way.
    pub open spec fn rotated(self, angle: int) -> Hsl {
        Hsl { hue: (self.hue + angle) % (HUE_CIRCLE as int), ..self }
    }

    /// The same hue and saturation at another lightness.
    pub open spec fn lit(self, lightness: int) -> Hsl {
        Hsl { lightness, ..self }
    }

    /// The color opposite on the wheel.
    pub open spec fn complementary(self) -> Hsl {
        self.rotated(180 * DEGREE)
    }

    /// The two colors a third of a turn away, the one further round first.
    pub open spec fn triadic(self) -> (Hsl, Hsl) {
        (self.rotated(120 * DEGREE), self.rotated(-120 * DEGREE))
    }

    /// The three colors a quarter, a half and three quarters of a turn further round.
    pub open spec fn tetradic(self) -> (Hsl, Hsl, Hsl) {
        (self.rotated(90 * DEGREE), self.rotated(180 * DEGREE), self.rotated(270 * DEGREE))
    }

    /// The three other corners of the square on the wheel that starts at this
    /// color, all at this color's saturation and lightness.
    pub open spec fn square(self) -> (Hsl, Hsl, Hsl) {
        (self.rotated(90 * DEGREE), self.rotated(180 * DEGREE), self.rotated(270 * DEGREE))
    }

    /// The two neighbors `angle` units away, the one further round first.
    pub open spec fn analogous_by(self, angle: int) -> (Hsl, Hsl) {
        (self.rotated(angle), self.rotated(-angle))
    }

    /// The two neighbors thirty degrees away, the one further round first.
    pub open spec fn analogous(self) -> (Hsl, Hsl) {
        self.analogous_by(30 * DEGREE)
    }

    /// The two neighbors of the opposite color, thirty degrees from it, the
    /// one further round first.
    pub open spec fn split_complementary(self) -> (Hsl, Hsl) {
        (self.complementary().rotated(30 * DEGREE), self.complementary().rotated(-30 * DEGREE))
    }

    /// The color at place `index` of `count` hues, each `step` units after the one before.
    pub open spec fn hue_at(self, step: int, index: int) -> Hsl {
        self.rotated(index * step)
    }

    /// As many hues as `hue_count` allows of `total`, starting with this color,
    /// each `step` units after the one before.
    pub open spec fn hues(self, total: int, step: int) -> Seq<Hsl> {
        Seq::new(hue_count(total, step) as nat, |i: int| self.hue_at(step, i))
    }

    /// The color at place `index` of `total` tints: `index` parts of `total`
    /// of the way from this lightness to full lightness, rounded down.
    pub open spec fn tint_at(self, total: int, index: int) -> Hsl {
        self.lit(self.lightness + ((UNIT - self.lightness) * index) / total)
    }

    /// `total` tints, starting with this color.
    pub open spec fn tints(self, total: int) -> Seq<Hsl> {
        Seq::new(total as nat, |i: int| self.tint_at(total, i))
    }

    /// The color at place `index` of `total` shades: `index` parts of `total`
    /// of the way from this lightness to none, rounded up.
    pub open spec fn shade_at(self, total: int, index: int) -> Hsl {
        self.lit(self.lightness - (self.lightness * index) / total)
    }

    /// `total` shades, starting with this color.
    pub open spec fn shades(self, total: int) -> Seq<Hsl> {
        Seq::new(total as nat, |i: int| self.shade_at(total, i))
    }
}

/// How many of `total` hues are shown at a given step: all of them while
/// they stay within half a turn, that is at most `HALF_CIRCLE / step`. A
/// step of zero never leaves the color, so it bounds nothing.
pub open spec fn hue_count(total: int, step: int) -> int {
    if step <= 0 || total <= (HALF_CIRCLE as int) / step {
        total
    } else {
        (HALF_CIRCLE as int) / step
    }
}

/// Turning by one angle and then by another is turning by their sum.
pub proof fn lemma_rotations_add(color: Hsl, first: int, second: int)
    ensures
        color.rotated(first).rotated(second) == color.rotated(first + second),
{
    vstd::arithmetic::div_mod::lemma_add_mod_noop(
        color.hue + first,
        second,
        HUE_CIRCLE as int,
    );
    vstd::arithmetic::div_mod::lemma_mod_twice(second, HUE_CIRCLE as int);
    vstd::arithmetic::div_mod::lemma_add_mod_noop(
        (color.hue + first) % (HUE_CIRCLE as int),
        second,
        HUE_CIRCLE as int,
    );
}

/// Turning by nothing, or by a whole turn either way, gives the color back.
pub proof fn lemma_whole_turn(color: Hsl)
    requires
        color.valid(),
    ensures
        color.rotated(0) == color,
        color.rotated(HUE_CIRCLE as int) == color,
        color.rotated(-(HUE_CIRCLE as int)) == color,
{
}

/// A turned color is a color: its hue lies on the wheel again, and its
/// saturation and lightness are those it had.
pub proof fn lemma_rotated_valid(color: Hsl, angle: int)
    requires
        color.valid(),
    ensures
        color.rotated(angle).valid(),
        color.rotated(angle).saturation == color.saturation,
        color.rotated(angle).lightness == color.lightness,
{
}

/// The opposite color lies exactly half a turn away, whatever the hue, and
/// the opposite of the opposite is the color itself.
pub proof fn lemma_complementary_half_turn(color: Hsl)
    requires
        color.valid(),
    ensures
        color.complementary().hue == (color.hue + 180_000) % 360_000,
        color.complementary().hue == if color.hue < HALF_CIRCLE {
            color.hue + HALF_CIRCLE
        } else {
            color.hue - HALF_CIRCLE
        },
        color.complementary().saturation == color.saturation,
        color.complementary().lightness == color.lightness,
        color.complementary().complementary() == color,
{
}

/// The two triadic colors lie a third of a turn to either side, always in
/// the same order: with the color itself they cut the wheel in three.
pub proof fn lemma_triadic_thirds(color: Hsl)
    requires
        color.valid(),
    ensures
        color.triadic().0.hue == (color.hue + 120_000) % 360_000,
        color.triadic().1.hue == (color.hue - 120_000) % 360_000,
        color.triadic().1.hue == (color.hue + 240_000) % 360_000,
        color.triadic().0.rotated(120 * DEGREE) == color.triadic().1,
        color.triadic().1.rotated(120 * DEGREE) == color,
        color.triadic().0.saturation == color.saturation,
        color.triadic().0.lightness == color.lightness,
        color.triadic().1.saturation == color.saturation,
        color.triadic().1.lightness == color.lightness,
{
}

/// Each hue of the panel is the one before turned by exactly one step, and
/// the hues never number more than the whole steps in half a turn.
pub proof fn lemma_hues_step(color: Hsl, total: int, step: int, index: int)
    requires
        0 <= index,
        index + 1 < hue_count(total, step),
    ensures
        color.hues(total, step)[index + 1] == color.hues(total, step)[index].rotated(step),
        step > 0 ==> color.hues(total, step).len() <= (HALF_CIRCLE as int) / step,
        color.hues(total, step).len() <= total,
{
    assert((index + 1) * step == index * step + step) by (nonlinear_arith);
    lemma_rotations_add(color, index * step, step);
}

/// The first hue, the first tint and the first shade are the color itself.
pub proof fn lemma_first_is_base(color: Hsl, total: int, step: int)
    requires
        color.valid(),
        total > 0,
    ensures
        hue_count(total, step) > 0 ==> color.hues(total, step)[0] == color,
        color.tints(total)[0] == color,
        color.shades(total)[0] == color,
{
    assert(0 * step == 0) by (nonlinear_arith);
    assert((UNIT - color.lightness) * 0 == 0) by (nonlinear_arith);
    assert(color.lightness * 0 == 0) by (nonlinear_arith);
}

/// `count` steps stay within half a turn when `count` is at most the number
/// of whole steps in half a turn.
proof fn lemma_steps_within_half_turn(count: int, step: int)
    requires
        step > 0,
        0 <= count <= (HALF_CIRCLE as int) / step,
    ensures
        0 <= count * step <= HALF_CIRCLE,
{
    assert(count * step <= ((HALF_CIRCLE as int) / step) * step) by (nonlinear_arith)
        requires
            step > 0,
            0 <= count <= (HALF_CIRCLE as int) / step,
    ;
    assert(((HALF_CIRCLE as int) / step) * step <= HALF_CIRCLE) by (nonlinear_arith)
        requires
            step > 0,
    ;
    assert(0 <= count * step) by (nonlinear_arith)
        requires
            step > 0,
            0 <= count,
    ;
}

/// `index` parts of `total` of a span, rounded down: it grows with `index`
/// and never passes the span.
pub proof fn lemma_share_grows(span: int, total: int, i: int, j: int)
    requires
        0 <= span,
        0 <= i <= j < total,
    ensures
        0 <= (span * i) / total <= (span * j) / total <= span,
{
    assert(0 <= span * i <= span * j <= span * total) by (nonlinear_arith)
        requires
            0 <= span,
            0 <= i <= j < total,
    ;
    vstd::arithmetic::div_mod::lemma_div_is_ordered(0, span * i, total);
    vstd::arithmetic::div_mod::lemma_div_is_ordered(span * i, span * j, total);
    vstd::arithmetic::div_mod::lemma_div_is_ordered(span * j, span * total, total);
    vstd::arithmetic::div_mod::lemma_div_multiples_vanish(span, total);
    assert(span * total == total * span) by (nonlinear_arith);
}

/// Tints rise toward full lightness: a later tint is at least as light as an
/// earlier one, none is darker than the color itself, none lighter than full.
pub proof fn lemma_tints_rise(base: Hsl, total: int, i: int, j: int)
    requires
        base.valid(),
        0 <= i <= j < total,
    ensures
        base.lightness <= base.tint_at(total, i).lightness,
        base.tint_at(total, i).lightness <= base.tint_at(total, j).lightness,
        base.tint_at(total, j).lightness <= UNIT,
{
    lemma_share_grows(UNIT - base.lightness, total, i, j);
}

/// Shades fall toward no lightness: a later shade is at most as light as an
/// earlier one, none is lighter than the color itself, none below zero.
pub proof fn lemma_shades_fall(base: Hsl, total: int, i: int, j: int)
    requires
        base.valid(),
        0 <= i <= j < total,
    ensures
        base.lightness >= base.shade_at(total, i).lightness,
        base.shade_at(total, i).lightness >= base.shade_at(total, j).lightness,
        base.shade_at(total, j).lightness >= 0,
{
    lemma_share_grows(base.lightness, total, i, j);
}

/// A color. Its hue is below `HUE_CIRCLE`, its saturation and lightness are
/// at most `UNIT`.
#[derive(Clone, Copy, Debug, PartialEq, Eq, Hash, Structural)]
pub struct Color {
    hue: u32,
    saturation: u32,
    lightness: u32,
}

impl View for Color {
    type V = Hsl;

    closed spec fn view(&self) -> Hsl {
        Hsl {
            hue: self.hue as int,
            saturation: self.saturation as int,
            lightness: self.lightness as int,
        }
    }
}

impl DeepView for Color {
    type V = Hsl;

    open spec fn deep_view(&self) -> Hsl {
        self@
    }
}

impl Color {
    #[verifier::type_invariant]
    spec fn well_formed(self) -> bool {
        self@.valid()
    }

    /// Builds a color. A hue of a full turn or more is wound back onto the
    /// wheel; saturation and lightness above full are cut to full.
    pub fn new(hue: u32, saturation: u32, lightness: u32) -> (color: Color)
        ensures
            color@.hue == hue % HUE_CIRCLE,
            color@.saturation == if saturation <= UNIT { saturation } else { UNIT },
            color@.lightness == if lightness <= UNIT { lightness } else { UNIT },
            color@.valid(),
    {
        Color {
            hue: hue % HUE_CIRCLE,
            saturation: if saturation <= UNIT { saturation } else { UNIT },
            lightness: if lightness <= UNIT { lightness } else { UNIT },
        }
    }

    /// The hue, in thousandths of a degree.
    pub fn hue(&self) -> (hue: u32)
        ensures
            hue == self@.hue,
            hue < HUE_CIRCLE,
    {
        proof {
            use_type_invariant(self);
        }
        self.hue
    }

    /// The saturation, in parts per million.
    pub fn saturation(&self) -> (saturation: u32)
        ensures
            saturation == self@.saturation,
            saturation <= UNIT,
    {
        proof {
            use_type_invariant(self);
        }
        self.saturation
    }

    /// The lightness, in parts per million.
    pub fn lightness(&self) -> (lightness: u32)
        ensures
            lightness == self@.lightness,
            lightness <= UNIT,
    {
        proof {
            use_type_invariant(self);
        }
        self.lightness
    }

    /// The color whose hue lies `angle` units further round the wheel.
    pub fn rotate(&self, angle: u32) -> (turned: Color)
        ensures
            turned@ == self@.rotated(angle as int),
            turned@.valid(),
    {
        proof {
            use_type_invariant(self);
        }
        let wound: u32 = angle % HUE_CIRCLE;
        Color { hue: (self.hue + wound) % HUE_CIRCLE, ..*self }
    }

    /// The color whose hue lies `angle` units back round the wheel.
    pub fn rotate_back(&self, angle: u32) -> (turned: Color)
        ensures
            turned@ == self@.rotated(-(angle as int)),
            turned@.valid(),
    {
        proof {
            use_type_invariant(self);
        }
        let wound: u32 = angle % HUE_CIRCLE;
        Color { hue: (self.hue + (HUE_CIRCLE - wound)) % HUE_CIRCLE, ..*self }
    }

    /// The color opposite on the wheel: the hue turned by half a turn,
    /// saturation and lightness kept.
    pub fn complementary(&self) -> (opposite: Color)
        ensures
            opposite@ == self@.complementary(),
            opposite@.hue == (self@.hue + HALF_CIRCLE) % (HUE_CIRCLE as int),
            opposite@.saturation == self@.saturation,
            opposite@.lightness == self@.lightness,
            opposite@.valid(),
    {
        self.rotate(180 * DEGREE)
    }

    /// The two colors a third of a turn away: first the one 120 degrees
    /// further round, then the one 120 degrees back.
    pub fn triadic(&self) -> (pair: (Color, Color))
        ensures
            (pair.0@, pair.1@) == self@.triadic(),
            pair.0@.hue == (self@.hue + 120 * DEGREE) % (HUE_CIRCLE as int),
            pair.1@.hue == (self@.hue - 120 * DEGREE) % (HUE_CIRCLE as int),
            pair.0@.valid(),
            pair.1@.valid(),
    {
        (self.rotate(120 * DEGREE), self.rotate_back(120 * DEGREE))
    }

    /// The three colors 90, 180 and 270 degrees further round, in that order.
    pub fn tetradic(&self) -> (triple: (Color, Color, Color))
        ensures
            (triple.0@, triple.1@, triple.2@) == self@.tetradic(),
            triple.0@.valid(),
            triple.1@.valid(),
            triple.2@.valid(),
    {
        (self.rotate(90 * DEGREE), self.rotate(180 * DEGREE), self.rotate(270 * DEGREE))
    }

    /// The three other corners of the square on the wheel, 90, 180 and 270
    /// degrees further round, all at this color's saturation and lightness.
    pub fn square(&self) -> (triple: (Color, Color, Color))
        ensures
            (triple.0@, triple.1@, triple.2@) == self@.square(),
            triple.0@.valid(),
            triple.1@.valid(),
            triple.2@.valid(),
    {
        (self.rotate(90 * DEGREE), self.rotate(180 * DEGREE), self.rotate(270 * DEGREE))
    }

    /// The two neighbors `angle` units away: first the one further round,
    /// then the one back.
    pub fn analogous_by(&self, angle: u32) -> (pair: (Color, Color))
        ensures
            (pair.0@, pair.1@) == self@.analogous_by(angle as int),
            pair.0@.valid(),
            pair.1@.valid(),
    {
        (self.rotate(angle), self.rotate_back(angle))
    }

    /// The two neighbors thirty degrees away: first the one further round,
    /// then the one back.
    pub fn analogous(&self) -> (pair: (Color, Color))
        ensures
            (pair.0@, pair.1@) == self@.analogous(),
            pair.0@.valid(),
            pair.1@.valid(),
    {
        self.analogous_by(30 * DEGREE)
    }

    /// The two neighbors of the opposite color: first the one thirty degrees
    /// past it, then the one thirty degrees before it.
    pub fn split_complementary(&self) -> (pair: (Color, Color))
        ensures
            (pair.0@, pair.1@) == self@.split_complementary(),
            pair.0@.valid(),
            pair.1@.valid(),
    {
        let opposite = self.complementary();
        (opposite.rotate(30 * DEGREE), opposite.rotate_back(30 * DEGREE))
    }

    /// The hues that follow this color round the wheel: as many of `total` as
    /// stay within half a turn, the first this color itself, each the one
    /// before turned by `step` units.
    pub fn hues(&self, total: u8, step: u32) -> (hues: Vec<Color>)
        ensures
            hues.deep_view() == self@.hues(total as int, step as int),
            hues@.len() == hue_count(total as int, step as int),
            hues@.len() <= total,
            step > 0 ==> hues@.len() <= HALF_CIRCLE / step,
            hues@.len() > 0 ==> hues@[0] == *self,
            forall|i: int|
                0 <= i < hues@.len() - 1 ==> hues@[i + 1]@.hue == ((#[trigger] hues@[i])@.hue
                    + step) % (HUE_CIRCLE as int),
            forall|i: int|
                0 <= i < hues@.len() ==> {
                    &&& (#[trigger] hues@[i])@.saturation == self@.saturation
                    &&& hues@[i]@.lightness == self@.lightness
                    &&& hues@[i]@.valid()
                },
    {
        proof {
            use_type_invariant(self);
        }
        let count: u8 = count_hues(total, step);
        let mut hues: Vec<Color> = Vec::new();
        let mut i: u8 = 0;
        while i < count
            invariant
                i <= count,
                count == hue_count(total as int, step as int),
                step > 0 ==> count <= HALF_CIRCLE / step,
                self@.valid(),
                hues@.len() == i,
                forall|k: int| 0 <= k < i ==> (#[trigger] hues@[k])@ == self@.hue_at(step as int, k),
                i > 0 ==> hues@[0] == *self,
            decreases count - i,
        {
            let turned: Color = if step == 0 {
                *self
            } else {
                proof {
                    lemma_steps_within_half_turn(i as int, step as int);
                }
                let angle: u32 = (i as u32) * step;
                self.rotate(angle)
            };
            assert(turned@ == self@.hue_at(step as int, i as int)) by {
                if step == 0 {
                    assert((i as int) * (step as int) == 0) by (nonlinear_arith)
                        requires
                            step == 0,
                    ;
                }
            }
            assert(i == 0 ==> turned == *self) by {
                if i == 0 {
                    assert((i as int) * (step as int) == 0) by (nonlinear_arith)
                        requires
                            i == 0,
                    ;
                }
            }
            hues.push(turned);
            i = i + 1;
        }
        proof {
            assert(hues.deep_view() =~= self@.hues(total as int, step as int));
            assert forall|k: int| 0 <= k < hues@.len() - 1 implies hues@[k + 1]@.hue == ((
            #[trigger] hues@[k])@.hue + step) % (HUE_CIRCLE as int) by {
                assert((k + 1) * (step as int) == k * (step as int) + step) by (nonlinear_arith);
            }
        }
        hues
    }

    /// `total` tints of this color: the first is the color itself, and tint
    /// `i` lies `i` parts of `total` of the way to full lightness. Hue and
    /// saturation stay.
    pub fn tints(&self, total: u8) -> (tints: Vec<Color>)
        ensures
            tints.deep_view() == self@.tints(total as int),
            tints@.len() == total,
            tints@.len() > 0 ==> tints@[0] == *self,
            forall|i: int, j: int|
                0 <= i <= j < tints@.len() ==> (#[trigger] tints@[i])@.lightness <= (
                #[trigger] tints@[j])@.lightness,
            forall|i: int|
                0 <= i < tints@.len() ==> {
                    &&& (#[trigger] tints@[i])@.hue == self@.hue
                    &&& tints@[i]@.saturation == self@.saturation
                    &&& self@.lightness <= tints@[i]@.lightness <= UNIT
                },
    {
        proof {
            use_type_invariant(self);
        }
        let span: u32 = UNIT - self.lightness;
        let mut tints: Vec<Color> = Vec::new();
        let mut i: u8 = 0;
        while i < total
            invariant
                i <= total,
                self@.valid(),
                span == UNIT - self@.lightness,
                tints@.len() == i,
                forall|k: int|
                    0 <= k < i ==> (#[trigger] tints@[k])@ == self@.tint_at(total as int, k),
                i > 0 ==> tints@[0] == *self,
            decreases total - i,
        {
            proof {
                lemma_share_grows(span as int, total as int, i as int, i as int);
                assert(span * i <= 1_000_000 * 255) by (nonlinear_arith)
                    requires
                        0 <= span <= 1_000_000,
                        0 <= i <= 255,
                ;
            }
            let gain: u32 = (span * (i as u32)) / (total as u32);
            assert(i == 0 ==> gain == 0) by {
                if i == 0 {
                    assert(span * i == 0) by (nonlinear_arith)
                        requires
                            i == 0,
                    ;
                }
            }
            tints.push(Color { lightness: self.lightness + gain, ..*self });
            i = i + 1;
        }
        proof {
            assert(tints.deep_view() =~= self@.tints(total as int));
            assert forall|a: int, b: int| 0 <= a <= b < tints@.len() implies (
            #[trigger] tints@[a])@.lightness <= (#[trigger] tints@[b])@.lightness by {
                lemma_tints_rise(self@, total as int, a, b);
            }
            assert forall|a: int| 0 <= a < tints@.len() implies {
                &&& (#[trigger] tints@[a])@.hue == self@.hue
                &&& tints@[a]@.saturation == self@.saturation
                &&& self@.lightness <= tints@[a]@.lightness <= UNIT
            } by {
                lemma_tints_rise(self@, total as int, a, a);
            }
        }
        tints
    }

    /// `total` shades of this color: the first is the color itself, and shade
    /// `i` lies `i` parts of `total` of the way to no lightness. Hue and
    /// saturation stay.
    pub fn shades(&self, total: u8) -> (shades: Vec<Color>)
        ensures
            shades.deep_view() == self@.shades(total as int),
            shades@.len() == total,
            shades@.len() > 0 ==> shades@[0] == *self,
            forall|i: int, j: int|
                0 <= i <= j < shades@.len() ==> (#[trigger] shades@[i])@.lightness >= (
                #[trigger] shades@[j])@.lightness,
            forall|i: int|
                0 <= i < shades@.len() ==> {
                    &&& (#[trigger] shades@[i])@.hue == self@.hue
                    &&& shades@[i]@.saturation == self@.saturation
                    &&& 0 <= shades@[i]@.lightness <= self@.lightness
                },
    {
        proof {
            use_type_invariant(self);
        }
        let span: u32 = self.lightness;
        let mut shades: Vec<Color> = Vec::new();
        let mut i: u8 = 0;
        while i < total
            invariant
                i <= total,
                self@.valid(),
                span == self@.lightness,
                shades@.len() == i,
                forall|k: int|
                    0 <= k < i ==> (#[trigger] shades@[k])@ == self@.shade_at(total as int, k),
                i > 0 ==> shades@[0] == *self,
            decreases total - i,
        {
            proof {
                lemma_share_grows(span as int, total as int, i as int, i as int);
                assert(span * i <= 1_000_000 * 255) by (nonlinear_arith)
                    requires
                        0 <= span <= 1_000_000,
                        0 <= i <= 255,
                ;
            }
            let loss: u32 = (span * (i as u32)) / (total as u32);
            assert(i == 0 ==> loss == 0) by {
                if i == 0 {
                    assert(span * i == 0) by (nonlinear_arith)
                        requires
                            i == 0,
                    ;
                }
            }
            shades.push(Color { lightness: self.lightness - loss, ..*self });
            i = i + 1;
        }
        proof {
            assert(shades.deep_view() =~= self@.shades(total as int));
            assert forall|a: int, b: int| 0 <= a <= b < shades@.len() implies (
            #[trigger] shades@[a])@.lightness >= (#[trigger] shades@[b])@.lightness by {
                lemma_shades_fall(self@, total as int, a, b);
            }
            assert forall|a: int| 0 <= a < shades@.len() implies {
                &&& (#[trigger] shades@[a])@.hue == self@.hue
                &&& shades@[a]@.saturation == self@.saturation
                &&& 0 <= shades@[a]@.lightness <= self@.lightness
            } by {
                lemma_shades_fall(self@, total as int, a, a);
            }
        }
        shades
    }
}

/// How many of `total` hues are shown at a given step.
pub fn count_hues(total: u8, step: u32) -> (count: u8)
    ensures
        count == hue_count(total as int, step as int),
        count <= total,
        step > 0 ==> count <= HALF_CIRCLE / step,
{
    if step == 0 {
        return total;
    }
    let limit: u32 = HALF_CIRCLE / step;
    if total as u32 <= limit {
        total
    } else {
        limit as u8
    }
}

} // verus!
