use egui_elements::color::Color32;
use egui_elements::gradient::{Fill, Gradient, GradientDir};

#[test]
fn corner_colors_match_dir() {
    let from = Color32::red();
    let to = Color32::blue();
    assert_eq!(Gradient::vertical(from, to).corner_colors(), [from, from, to, to]);
    assert_eq!(Gradient::horizontal(from, to).corner_colors(), [from, to, from, to]);
    assert_eq!(
        Gradient::new(from, to).with_dir(GradientDir::BottomUp).corner_colors(),
        [to, to, from, from]
    );
    assert_eq!(
        Gradient::new(from, to).with_dir(GradientDir::RightToLeft).corner_colors(),
        [to, from, to, from]
    );
}

#[test]
fn reverse_swaps_stops() {
    let from = Color32::white();
    let to = Color32::black();
    let g = Gradient::horizontal(from, to).reverse();
    assert_eq!(g.from, to);
    assert_eq!(g.to, from);
    assert_eq!(g.dir, GradientDir::LeftToRight);
}

#[test]
fn reverse_twice_gives_the_gradient_back() {
    let g = Gradient::vertical(Color32::red(), Color32::green()).with_dir(GradientDir::RightToLeft);
    assert_eq!(g.reverse().reverse(), g);
}

#[test]
fn reversed_gradient_paints_like_the_opposite_direction() {
    let from = Color32::from_rgb(1, 2, 3);
    let to = Color32::from_rgb(4, 5, 6);
    assert_eq!(
        Gradient::vertical(from, to).reverse().corner_colors(),
        Gradient::vertical(from, to).with_dir(GradientDir::BottomUp).corner_colors()
    );
}

#[test]
fn gradient_dir_defaults_to_top_down() {
    assert_eq!(GradientDir::default(), GradientDir::TopDown);
}

#[test]
fn fill_constructors_and_default() {
    assert_eq!(Fill::default(), Fill::Solid(Color32::transparent()));
    assert_eq!(Fill::solid(Color32::red()), Fill::Solid(Color32::red()));
    assert_eq!(
        Fill::vertical(Color32::red(), Color32::blue()),
        Fill::Gradient(Gradient { from: Color32::red(), to: Color32::blue(), dir: GradientDir::TopDown })
    );
    assert_eq!(
        Fill::horizontal(Color32::red(), Color32::blue()),
        Fill::Gradient(Gradient {
            from: Color32::red(),
            to: Color32::blue(),
            dir: GradientDir::LeftToRight
        })
    );
    assert_eq!(Fill::from(Color32::green()), Fill::Solid(Color32::green()));
    let g = Gradient::new(Color32::white(), Color32::black());
    assert_eq!(Fill::from(g), Fill::Gradient(g));
}

#[test]
fn remap_color_replaces_matching_stops_only() {
    let mut solid = Fill::solid(Color32::red());
    solid.remap_color(Color32::red(), Color32::blue());
    assert_eq!(solid, Fill::Solid(Color32::blue()));

    let mut other = Fill::solid(Color32::green());
    other.remap_color(Color32::red(), Color32::blue());
    assert_eq!(other, Fill::Solid(Color32::green()));

    let mut g = Fill::vertical(Color32::red(), Color32::green());
    g.remap_color(Color32::red(), Color32::blue());
    assert_eq!(g, Fill::vertical(Color32::blue(), Color32::green()));

    let mut both = Fill::horizontal(Color32::red(), Color32::red());
    both.remap_color(Color32::red(), Color32::white());
    assert_eq!(both, Fill::horizontal(Color32::white(), Color32::white()));

    let once = both;
    both.remap_color(Color32::red(), Color32::white());
    assert_eq!(both, once);
}
