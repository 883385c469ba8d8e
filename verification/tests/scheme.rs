use colorpicker::color::Color;
use colorpicker::color::DEGREE;
use colorpicker::scheme::scheme_swatches;
use colorpicker::scheme::SchemeType;
use colorpicker::scheme::Swatch;

fn plain(color: Color) -> Swatch {
    Swatch { color, wide: false }
}

fn wide(color: Color) -> Swatch {
    Swatch { color, wide: true }
}

fn base() -> Color {
    Color::new(30 * DEGREE, 500_000, 400_000)
}

fn at(degrees: u32) -> Color {
    Color::new(degrees * DEGREE, 500_000, 400_000)
}

#[test]
fn schemes_have_their_names() {
    assert_eq!(SchemeType::Complementary.as_str(), "complementary");
    assert_eq!(SchemeType::Triadic.as_str(), "triadic");
    assert_eq!(SchemeType::Tetradic.as_str(), "tetradic");
    assert_eq!(SchemeType::Analogous.as_str(), "analogous");
    assert_eq!(SchemeType::SplitComplementary.as_str(), "split complementary");
    assert_eq!(SchemeType::Square.as_str(), "square");
}

#[test]
fn all_lists_every_scheme_once() {
    assert_eq!(
        SchemeType::all(),
        vec![
            SchemeType::Complementary,
            SchemeType::Triadic,
            SchemeType::Tetradic,
            SchemeType::Analogous,
            SchemeType::SplitComplementary,
            SchemeType::Square,
        ]
    );
}

#[test]
fn complementary_is_one_row_of_two() {
    let rows = scheme_swatches(base(), SchemeType::Complementary);
    assert_eq!(rows, vec![vec![plain(base()), plain(at(210))]]);
}

#[test]
fn triadic_is_a_wide_base_over_two() {
    let rows = scheme_swatches(base(), SchemeType::Triadic);
    assert_eq!(rows, vec![vec![wide(base())], vec![plain(at(150)), plain(at(270))]]);
}

#[test]
fn tetradic_is_two_rows_of_two() {
    let rows = scheme_swatches(base(), SchemeType::Tetradic);
    assert_eq!(
        rows,
        vec![vec![plain(base()), plain(at(120))], vec![plain(at(210)), plain(at(300))]]
    );
}

#[test]
fn analogous_is_a_wide_base_over_two() {
    let rows = scheme_swatches(base(), SchemeType::Analogous);
    assert_eq!(rows, vec![vec![wide(base())], vec![plain(at(60)), plain(at(0))]]);
}

#[test]
fn split_complementary_is_a_wide_base_over_two() {
    let rows = scheme_swatches(base(), SchemeType::SplitComplementary);
    assert_eq!(rows, vec![vec![wide(base())], vec![plain(at(240)), plain(at(180))]]);
}

#[test]
fn square_is_two_rows_of_two() {
    let rows = scheme_swatches(base(), SchemeType::Square);
    assert_eq!(
        rows,
        vec![vec![plain(base()), plain(at(120))], vec![plain(at(210)), plain(at(300))]]
    );
}

#[test]
fn the_base_color_comes_first_unchanged() {
    for hue in [0u32, 1, 179_999, 180_000, 300_000, 359_999] {
        let color = Color::new(hue, 17, 1_000_000);
        for scheme in SchemeType::all() {
            let rows = scheme_swatches(color, scheme);
            assert_eq!(rows[0][0].color, color);
        }
    }
}
