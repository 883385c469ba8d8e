//! The harmony schemes and the rows of swatches that show one of them.

use vstd::prelude::*;
use crate::color::Color;
use crate::color::Hsl;

verus! {

/// A rule that picks further colors by their place on the wheel relative to
/// a base color.
#[derive(Clone, Copy, Debug, PartialEq, Eq, Structural)]
pub enum SchemeType {
    Complementary,
    Triadic,
    Tetradic,
    Analogous,
    SplitComplementary,
    Square,
}

impl SchemeType {
    /// The scheme's name as it is shown to the user.
    pub open spec fn name(self) -> Seq<char> {
        match self {
            SchemeType::Complementary => "complementary"@,
            SchemeType::Triadic => "triadic"@,
            SchemeType::Tetradic => "tetradic"@,
            SchemeType::Analogous => "analogous"@,
            SchemeType::SplitComplementary => "split complementary"@,
            SchemeType::Square => "square"@,
        }
    }

    /// The scheme's name as it is shown to the user.
    pub fn as_str(&self) -> (name: &'static str)
        ensures
            name@ == self.name(),
    {
        match self {
            SchemeType::Complementary => "complementary",
            SchemeType::Triadic => "triadic",
            SchemeType::Tetradic => "tetradic",
            SchemeType::Analogous => "analogous",
            SchemeType::SplitComplementary => "split complementary",
            SchemeType::Square => "square",
        }
    }

    /// Every scheme, in the order in which a chooser lists them.
    pub fn all() -> (schemes: Vec<SchemeType>)
        ensures
            schemes@ == seq![
                SchemeType::Complementary,
                SchemeType::Triadic,
                SchemeType::Tetradic,
                SchemeType::Analogous,
                SchemeType::SplitComplementary,
                SchemeType::Square,
            ],
    {
        let mut schemes: Vec<SchemeType> = Vec::new();
        schemes.push(SchemeType::Complementary);
        schemes.push(SchemeType::Triadic);
        schemes.push(SchemeType::Tetradic);
        schemes.push(SchemeType::Analogous);
        schemes.push(SchemeType::SplitComplementary);
        schemes.push(SchemeType::Square);
        proof {
            assert(schemes@ =~= seq![
                SchemeType::Complementary,
                SchemeType::Triadic,
                SchemeType::Tetradic,
                SchemeType::Analogous,
                SchemeType::SplitComplementary,
                SchemeType::Square,
            ]);
        }
        schemes
    }
}

/// The model of a swatch: a color and whether its box spans two columns.
pub struct Patch {
    pub color: Hsl,
    pub wide: bool,
}

/// One labeled box of color in a panel. A wide swatch spans two columns.
#[derive(Clone, Copy, Debug, PartialEq, Eq)]
pub struct Swatch {
    pub color: Color,
    pub wide: bool,
}

impl View for Swatch {
    type V = Patch;

    open spec fn view(&self) -> Patch {
        Patch { color: self.color@, wide: self.wide }
    }
}

impl DeepView for Swatch {
    type V = Patch;

    open spec fn deep_view(&self) -> Patch {
        self@
    }
}

/// A swatch of ordinary width.
pub open spec fn plain(color: Hsl) -> Patch {
    Patch { color, wide: false }
}

/// A swatch that spans two columns.
pub open spec fn wide(color: Hsl) -> Patch {
    Patch { color, wide: true }
}

/// The base color beside one derived color, in a single row.
pub open spec fn rows_of_two(base: Hsl, other: Hsl) -> Seq<Seq<Patch>> {
    seq![seq![plain(base), plain(other)]]
}

/// The base color wide on top, the two derived colors in a row below.
pub open spec fn rows_of_three(base: Hsl, others: (Hsl, Hsl)) -> Seq<Seq<Patch>> {
    seq![seq![wide(base)], seq![plain(others.0), plain(others.1)]]
}

/// The base color and the first derived color in one row, the other two
/// derived colors in the row below.
pub open spec fn rows_of_four(base: Hsl, others: (Hsl, Hsl, Hsl)) -> Seq<Seq<Patch>> {
    seq![seq![plain(base), plain(others.0)], seq![plain(others.1), plain(others.2)]]
}

/// The rows of swatches that show a scheme of a base color. The base color
/// always comes first, unchanged.
pub open spec fn scheme_rows(base: Hsl, scheme: SchemeType) -> Seq<Seq<Patch>> {
    match scheme {
        SchemeType::Complementary => rows_of_two(base, base.complementary()),
        SchemeType::Triadic => rows_of_three(base, base.triadic()),
        SchemeType::Tetradic => rows_of_four(base, base.tetradic()),
        SchemeType::Analogous => rows_of_three(base, base.analogous()),
        SchemeType::SplitComplementary => rows_of_three(base, base.split_complementary()),
        SchemeType::Square => rows_of_four(base, base.square()),
    }
}

/// In every scheme the first swatch of the first row holds the base color.
pub proof fn lemma_base_comes_first(base: Hsl, scheme: SchemeType)
    ensures
        scheme_rows(base, scheme).len() > 0,
        scheme_rows(base, scheme)[0].len() > 0,
        scheme_rows(base, scheme)[0][0].color == base,
{
}

fn two_rows(base: Color, other: Color) -> (rows: Vec<Vec<Swatch>>)
    ensures
        rows.deep_view() == rows_of_two(base@, other@),
        rows@[0]@[0].color == base,
{
    let mut row: Vec<Swatch> = Vec::new();
    row.push(Swatch { color: base, wide: false });
    row.push(Swatch { color: other, wide: false });
    let mut rows: Vec<Vec<Swatch>> = Vec::new();
    rows.push(row);
    proof {
        assert(rows.deep_view() =~~= rows_of_two(base@, other@));
    }
    rows
}

fn three_rows(base: Color, others: (Color, Color)) -> (rows: Vec<Vec<Swatch>>)
    ensures
        rows.deep_view() == rows_of_three(base@, (others.0@, others.1@)),
        rows@[0]@[0].color == base,
{
    let mut top: Vec<Swatch> = Vec::new();
    top.push(Swatch { color: base, wide: true });
    let mut below: Vec<Swatch> = Vec::new();
    below.push(Swatch { color: others.0, wide: false });
    below.push(Swatch { color: others.1, wide: false });
    let mut rows: Vec<Vec<Swatch>> = Vec::new();
    rows.push(top);
    rows.push(below);
    proof {
        assert(rows.deep_view() =~~= rows_of_three(base@, (others.0@, others.1@)));
    }
    rows
}

fn four_rows(base: Color, others: (Color, Color, Color)) -> (rows: Vec<Vec<Swatch>>)
    ensures
        rows.deep_view() == rows_of_four(base@, (others.0@, others.1@, others.2@)),
        rows@[0]@[0].color == base,
{
    let mut top: Vec<Swatch> = Vec::new();
    top.push(Swatch { color: base, wide: false });
    top.push(Swatch { color: others.0, wide: false });
    let mut below: Vec<Swatch> = Vec::new();
    below.push(Swatch { color: others.1, wide: false });
    below.push(Swatch { color: others.2, wide: false });
    let mut rows: Vec<Vec<Swatch>> = Vec::new();
    rows.push(top);
    rows.push(below);
    proof {
        assert(rows.deep_view() =~~= rows_of_four(base@, (others.0@, others.1@, others.2@)));
    }
    rows
}

/// Derives a scheme of `color` and lays it out in rows of swatches. The
/// first swatch of the first row is `color` itself.
pub fn scheme_swatches(color: Color, scheme: SchemeType) -> (rows: Vec<Vec<Swatch>>)
    ensures
        rows.deep_view() == scheme_rows(color@, scheme),
        rows@.len() > 0,
        rows@[0]@.len() > 0,
        rows@[0]@[0].color == color,
{
    let rows = match scheme {
        SchemeType::Complementary => two_rows(color, color.complementary()),
        SchemeType::Triadic => three_rows(color, color.triadic()),
        SchemeType::Tetradic => four_rows(color, color.tetradic()),
        SchemeType::Analogous => three_rows(color, color.analogous()),
        SchemeType::SplitComplementary => three_rows(color, color.split_complementary()),
        SchemeType::Square => four_rows(color, color.square()),
    };
    proof {
        lemma_base_comes_first(color@, scheme);
        assert(rows@.len() == rows.deep_view().len());
        assert(rows@[0]@.len() == rows.deep_view()[0].len());
    }
    rows
}

} // verus!
