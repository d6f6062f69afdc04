use cntour::palettes::{
    get_palette, palette_aurora, palette_by_name, palette_glacier, palette_neon, palette_ocean,
    palette_psychedelic, palette_sunset, palette_viridis, parse_palette_name, str_equal,
    PaletteName,
};

#[test]
fn palette_colours_are_the_listed_stops() {
    assert_eq!(
        palette_aurora(),
        vec![[111, 45, 189], [166, 99, 204], [178, 152, 220], [184, 208, 235], [185, 250, 248]]
    );
    assert_eq!(
        palette_glacier(),
        vec![[3, 4, 94], [0, 119, 182], [0, 180, 216], [144, 224, 239], [202, 240, 248]]
    );
    assert_eq!(
        palette_neon(),
        vec![[247, 37, 133], [114, 9, 183], [58, 12, 163], [67, 97, 238], [76, 201, 240]]
    );
    assert_eq!(
        palette_ocean(),
        vec![[5, 102, 141], [2, 128, 144], [0, 168, 150], [2, 195, 154], [240, 243, 189]]
    );
    assert_eq!(
        palette_psychedelic(),
        vec![[255, 0, 80], [255, 140, 0], [255, 235, 0], [0, 200, 255], [60, 0, 255], [200, 0, 255]]
    );
    assert_eq!(
        palette_sunset(),
        vec![[57, 0, 153], [158, 0, 89], [255, 0, 84], [255, 84, 0], [255, 189, 0]]
    );
    assert_eq!(palette_viridis(), vec![[72, 33, 115], [46, 111, 142], [41, 175, 127], [189, 223, 38]]);
}

#[test]
fn get_palette_by_each_listed_name() {
    assert_eq!(get_palette("aurora"), palette_aurora());
    assert_eq!(get_palette("glacier"), palette_glacier());
    assert_eq!(get_palette("neon"), palette_neon());
    assert_eq!(get_palette("ocean"), palette_ocean());
    assert_eq!(get_palette("psychedelic"), palette_psychedelic());
    assert_eq!(get_palette("sunset"), palette_sunset());
    assert_eq!(get_palette("viridis"), palette_viridis());
}

#[test]
fn palette_names_parse_exactly() {
    assert_eq!(parse_palette_name("ocean"), Some(PaletteName::Ocean));
    assert_eq!(parse_palette_name("psychedelic"), Some(PaletteName::Psychedelic));
    assert_eq!(parse_palette_name("Ocean"), None);
    assert_eq!(parse_palette_name("ocean "), None);
    assert_eq!(parse_palette_name(""), None);
    assert_eq!(parse_palette_name("random"), None);
}

#[test]
fn every_palette_has_two_stops() {
    for name in [
        PaletteName::Aurora,
        PaletteName::Glacier,
        PaletteName::Neon,
        PaletteName::Ocean,
        PaletteName::Psychedelic,
        PaletteName::Sunset,
        PaletteName::Viridis,
    ] {
        assert!(palette_by_name(name).len() >= 2);
    }
}

#[test]
fn string_equality_compares_characters() {
    assert!(str_equal("neon", "neon"));
    assert!(!str_equal("neon", "neo"));
    assert!(!str_equal("neon", "noen"));
    assert!(str_equal("", ""));
}
