use image::imageops::ColorMap;
use inky::palette::{Colours, Palette, Rgba8};

fn rgb(r: u8, g: u8, b: u8) -> Rgba8 {
    Rgba8 { r, g, b, a: 255 }
}

const ALL: [Colours; 6] = [
    Colours::BLACK,
    Colours::WHITE,
    Colours::YELLOW,
    Colours::RED,
    Colours::BLUE,
    Colours::GREEN,
];

#[test]
fn palette_colours_have_their_documented_values() {
    assert_eq!(Colours::BLACK.as_rgba(), Rgba8 { r: 0, g: 0, b: 0, a: 255 });
    assert_eq!(Colours::WHITE.as_rgba(), Rgba8 { r: 255, g: 255, b: 255, a: 255 });
    assert_eq!(Colours::YELLOW.as_rgba(), Rgba8 { r: 255, g: 242, b: 0, a: 255 });
    assert_eq!(Colours::RED.as_rgba(), Rgba8 { r: 255, g: 0, b: 0, a: 255 });
    assert_eq!(Colours::BLUE.as_rgba(), Rgba8 { r: 0, g: 0, b: 217, a: 255 });
    assert_eq!(Colours::GREEN.as_rgba(), Rgba8 { r: 0, g: 228, b: 0, a: 255 });
}

#[test]
fn palette_indices_follow_the_table() {
    assert_eq!(Colours::BLACK.index(), 0);
    assert_eq!(Colours::WHITE.index(), 1);
    assert_eq!(Colours::YELLOW.index(), 2);
    assert_eq!(Colours::RED.index(), 3);
    assert_eq!(Colours::BLUE.index(), 5);
    assert_eq!(Colours::GREEN.index(), 6);
}

#[test]
fn quantising_a_palette_colour_returns_its_own_index() {
    let palette = Palette;
    for colour in ALL {
        assert_eq!(palette.index_of_rgba(&colour.as_rgba()), colour.index() as usize);
        assert_eq!(palette.closest(&colour.as_rgba()), colour);
    }
}

#[test]
fn quantiser_only_answers_with_legal_indices() {
    let palette = Palette;
    let mut r = 0u32;
    while r < 256 {
        let mut g = 0u32;
        while g < 256 {
            let mut b = 0u32;
            while b < 256 {
                let index = palette.index_of_rgba(&rgb(r as u8, g as u8, b as u8));
                assert!(matches!(index, 0 | 1 | 2 | 3 | 5 | 6), "index {index}");
                b += 5;
            }
            g += 5;
        }
        r += 5;
    }
}

#[test]
fn quantiser_picks_the_nearest_colour() {
    let palette = Palette;
    assert_eq!(palette.index_of_rgba(&rgb(250, 10, 10)), 3);
    assert_eq!(palette.index_of_rgba(&rgb(10, 10, 10)), 0);
    assert_eq!(palette.index_of_rgba(&rgb(240, 240, 240)), 1);
    assert_eq!(palette.index_of_rgba(&rgb(250, 230, 20)), 2);
    assert_eq!(palette.index_of_rgba(&rgb(10, 10, 200)), 5);
    assert_eq!(palette.index_of_rgba(&rgb(10, 200, 10)), 6);
    // 100 from black is nearer than 117 from blue; 110 is nearer to blue.
    assert_eq!(palette.index_of_rgba(&rgb(0, 0, 100)), 0);
    assert_eq!(palette.index_of_rgba(&rgb(0, 0, 110)), 5);
    // Mid grey is nearer to blue (40689) than to green (42768), white
    // (48387) or black (49152).
    assert_eq!(palette.index_of_rgba(&rgb(128, 128, 128)), 5);
    assert_eq!(palette.index_of_rgba(&rgb(60, 60, 60)), 0);
    assert_eq!(palette.index_of_rgba(&rgb(200, 200, 200)), 1);
}

#[test]
fn quantiser_breaks_ties_towards_the_colour_scanned_first() {
    let palette = Palette;
    // Halfway between yellow and red: yellow is scanned first.
    assert_eq!(palette.index_of_rgba(&rgb(255, 121, 0)), 2);
    // Halfway between black and green: black is scanned first.
    assert_eq!(palette.index_of_rgba(&rgb(0, 114, 0)), 0);
    assert_eq!(palette.closest(&rgb(0, 114, 0)), Colours::BLACK);
}

#[test]
fn quantiser_ignores_alpha() {
    let palette = Palette;
    assert_eq!(palette.index_of_rgba(&Rgba8 { r: 255, g: 255, b: 255, a: 0 }), 1);
    assert_eq!(palette.index_of_rgba(&Rgba8 { r: 0, g: 0, b: 217, a: 3 }), 5);
}

#[test]
fn lookup_inverts_index_and_falls_back_to_black() {
    let palette = Palette;
    for colour in ALL {
        assert_eq!(palette.lookup_rgba(colour.index() as usize), Some(colour.as_rgba()));
    }
    assert_eq!(palette.lookup_rgba(4), Some(Colours::BLACK.as_rgba()));
    assert_eq!(palette.lookup_rgba(7), Some(Colours::BLACK.as_rgba()));
    assert_eq!(palette.lookup_rgba(100), Some(Colours::BLACK.as_rgba()));
    assert!(palette.has_lookup());
}

#[test]
fn map_color_replaces_by_the_nearest_palette_colour() {
    let palette = Palette;
    let mut colour = Rgba8 { r: 10, g: 10, b: 10, a: 77 };
    palette.map_color(&mut colour);
    assert_eq!(colour, Rgba8 { r: 0, g: 0, b: 0, a: 255 });
    let mut colour = rgb(0, 200, 30);
    palette.map_color(&mut colour);
    assert_eq!(colour, Colours::GREEN.as_rgba());
}

#[test]
fn palette_is_a_colour_map_of_the_image_crate() {
    let palette = Palette;
    let mut pixel = image::Rgba([250u8, 240, 10, 9]);
    assert_eq!(ColorMap::index_of(&palette, &pixel), 2);
    ColorMap::map_color(&palette, &mut pixel);
    assert_eq!(pixel, image::Rgba([255u8, 242, 0, 255]));
    assert_eq!(ColorMap::lookup(&palette, 6), Some(image::Rgba([0u8, 228, 0, 255])));
    assert!(ColorMap::has_lookup(&palette));
}
