use vstd::prelude::*;

verus! {

/// The named colour palettes that a request may ask for.
#[derive(Clone, Copy, Debug, PartialEq, Eq, Structural)]
pub enum PaletteName {
    Aurora,
    Glacier,
    Neon,
    Ocean,
    Psychedelic,
    Sunset,
    Viridis,
}

/// The colour stops of the "aurora" palette, darkest use first.
pub open spec fn spec_palette_aurora() -> Seq<[u8; 3]> {
    seq![[111u8, 45u8, 189u8], [166u8, 99u8, 204u8], [178u8, 152u8, 220u8], [184u8, 208u8, 235u8], [185u8, 250u8, 248u8]]
}

/// The "aurora" palette.
pub fn palette_aurora() -> (p: Vec<[u8; 3]>)
    ensures
        p@ == spec_palette_aurora(),
{
    let p = vec![[111, 45, 189], [166, 99, 204], [178, 152, 220], [184, 208, 235], [185, 250, 248]];
    assert(p@ =~= spec_palette_aurora());
    p
}

/// The colour stops of the "glacier" palette, darkest use first.
pub open spec fn spec_palette_glacier() -> Seq<[u8; 3]> {
    seq![[3u8, 4u8, 94u8], [0u8, 119u8, 182u8], [0u8, 180u8, 216u8], [144u8, 224u8, 239u8], [202u8, 240u8, 248u8]]
}

/// The "glacier" palette.
pub fn palette_glacier() -> (p: Vec<[u8; 3]>)
    ensures
        p@ == spec_palette_glacier(),
{
    let p = vec![[3, 4, 94], [0, 119, 182], [0, 180, 216], [144, 224, 239], [202, 240, 248]];
    assert(p@ =~= spec_palette_glacier());
    p
}

/// The colour stops of the "neon" palette, darkest use first.
pub open spec fn spec_palette_neon() -> Seq<[u8; 3]> {
    seq![[247u8, 37u8, 133u8], [114u8, 9u8, 183u8], [58u8, 12u8, 163u8], [67u8, 97u8, 238u8], [76u8, 201u8, 240u8]]
}

/// The "neon" palette.
pub fn palette_neon() -> (p: Vec<[u8; 3]>)
    ensures
        p@ == spec_palette_neon(),
{
    let p = vec![[247, 37, 133], [114, 9, 183], [58, 12, 163], [67, 97, 238], [76, 201, 240]];
    assert(p@ =~= spec_palette_neon());
    p
}

/// The colour stops of the "ocean" palette, darkest use first.
pub open spec fn spec_palette_ocean() -> Seq<[u8; 3]> {
    seq![[5u8, 102u8, 141u8], [2u8, 128u8, 144u8], [0u8, 168u8, 150u8], [2u8, 195u8, 154u8], [240u8, 243u8, 189u8]]
}

/// The "ocean" palette.
pub fn palette_ocean() -> (p: Vec<[u8; 3]>)
    ensures
        p@ == spec_palette_ocean(),
{
    let p = vec![[5, 102, 141], [2, 128, 144], [0, 168, 150], [2, 195, 154], [240, 243, 189]];
    assert(p@ =~= spec_palette_ocean());
    p
}

/// The colour stops of the "psychedelic" palette, darkest use first.
pub open spec fn spec_palette_psychedelic() -> Seq<[u8; 3]> {
    seq![[255u8, 0u8, 80u8], [255u8, 140u8, 0u8], [255u8, 235u8, 0u8], [0u8, 200u8, 255u8], [60u8, 0u8, 255u8], [200u8, 0u8, 255u8]]
}

/// The "psychedelic" palette.
pub fn palette_psychedelic() -> (p: Vec<[u8; 3]>)
    ensures
        p@ == spec_palette_psychedelic(),
{
    let p = vec![[255, 0, 80], [255, 140, 0], [255, 235, 0], [0, 200, 255], [60, 0, 255], [200, 0, 255]];
    assert(p@ =~= spec_palette_psychedelic());
    p
}

/// The colour stops of the "sunset" palette, darkest use first.
pub open spec fn spec_palette_sunset() -> Seq<[u8; 3]> {
    seq![[57u8, 0u8, 153u8], [158u8, 0u8, 89u8], [255u8, 0u8, 84u8], [255u8, 84u8, 0u8], [255u8, 189u8, 0u8]]
}

/// The "sunset" palette.
pub fn palette_sunset() -> (p: Vec<[u8; 3]>)
    ensures
        p@ == spec_palette_sunset(),
{
    let p = vec![[57, 0, 153], [158, 0, 89], [255, 0, 84], [255, 84, 0], [255, 189, 0]];
    assert(p@ =~= spec_palette_sunset());
    p
}

/// The colour stops of the "viridis" palette, darkest use first.
pub open spec fn spec_palette_viridis() -> Seq<[u8; 3]> {
    seq![[72u8, 33u8, 115u8], [46u8, 111u8, 142u8], [41u8, 175u8, 127u8], [189u8, 223u8, 38u8]]
}

/// The "viridis" palette.
pub fn palette_viridis() -> (p: Vec<[u8; 3]>)
    ensures
        p@ == spec_palette_viridis(),
{
    let p = vec![[72, 33, 115], [46, 111, 142], [41, 175, 127], [189, 223, 38]];
    assert(p@ =~= spec_palette_viridis());
    p
}

/// The colour stops of a named palette.
pub open spec fn palette_of(name: PaletteName) -> Seq<[u8; 3]> {
    match name {
        PaletteName::Aurora => spec_palette_aurora(),
        PaletteName::Glacier => spec_palette_glacier(),
        PaletteName::Neon => spec_palette_neon(),
        PaletteName::Ocean => spec_palette_ocean(),
        PaletteName::Psychedelic => spec_palette_psychedelic(),
        PaletteName::Sunset => spec_palette_sunset(),
        PaletteName::Viridis => spec_palette_viridis(),
    }
}

/// The palette that a listed name denotes, or `None` for a name that is not listed.
pub open spec fn palette_name_of(name: Seq<char>) -> Option<PaletteName> {
    if name == "aurora"@ {
        Some(PaletteName::Aurora)
    } else if name == "glacier"@ {
        Some(PaletteName::Glacier)
    } else if name == "neon"@ {
        Some(PaletteName::Neon)
    } else if name == "ocean"@ {
        Some(PaletteName::Ocean)
    } else if name == "psychedelic"@ {
        Some(PaletteName::Psychedelic)
    } else if name == "sunset"@ {
        Some(PaletteName::Sunset)
    } else if name == "viridis"@ {
        Some(PaletteName::Viridis)
    } else {
        None
    }
}

/// A name is listed when it denotes one of the palettes.
pub open spec fn is_listed_palette(name: Seq<char>) -> bool {
    palette_name_of(name) is Some
}

/// Whether two string slices hold the same characters.
pub fn str_equal(a: &str, b: &str) -> (r: bool)
    ensures
        r == (a@ == b@),
{
    let a_owned = a.to_owned();
    let b_owned = b.to_owned();
    a_owned == b_owned
}

/// Looks a palette name up among the listed ones.
pub fn parse_palette_name(name: &str) -> (r: Option<PaletteName>)
    ensures
        r == palette_name_of(name@),
{
    if str_equal(name, "aurora") {
        Some(PaletteName::Aurora)
    } else if str_equal(name, "glacier") {
        Some(PaletteName::Glacier)
    } else if str_equal(name, "neon") {
        Some(PaletteName::Neon)
    } else if str_equal(name, "ocean") {
        Some(PaletteName::Ocean)
    } else if str_equal(name, "psychedelic") {
        Some(PaletteName::Psychedelic)
    } else if str_equal(name, "sunset") {
        Some(PaletteName::Sunset)
    } else if str_equal(name, "viridis") {
        Some(PaletteName::Viridis)
    } else {
        None
    }
}

/// The colour stops of a named palette.
pub fn palette_by_name(name: PaletteName) -> (p: Vec<[u8; 3]>)
    ensures
        p@ == palette_of(name),
{
    match name {
        PaletteName::Aurora => palette_aurora(),
        PaletteName::Glacier => palette_glacier(),
        PaletteName::Neon => palette_neon(),
        PaletteName::Ocean => palette_ocean(),
        PaletteName::Psychedelic => palette_psychedelic(),
        PaletteName::Sunset => palette_sunset(),
        PaletteName::Viridis => palette_viridis(),
    }
}

/// The palette of a listed name. Only the listed names are accepted.
pub fn get_palette(name: &str) -> (p: Vec<[u8; 3]>)
    requires
        is_listed_palette(name@),
    ensures
        p@ == palette_of(palette_name_of(name@).unwrap()),
{
    match parse_palette_name(name) {
        Some(n) => palette_by_name(n),
        None => palette_aurora(),
    }
}

/// Every named palette has at least two colour stops, so a gradient
/// through it always has a first segment.
pub proof fn lemma_palettes_have_two_stops(name: PaletteName)
    ensures
        palette_of(name).len() >= 2,
{
}

/// Each listed name denotes its own palette: the names are told apart by
/// `palette_name_of`, so `get_palette` on a listed name gives that palette.
pub proof fn lemma_listed_names_resolve()
    ensures
        palette_name_of("aurora"@) == Some(PaletteName::Aurora),
        palette_name_of("glacier"@) == Some(PaletteName::Glacier),
        palette_name_of("neon"@) == Some(PaletteName::Neon),
        palette_name_of("ocean"@) == Some(PaletteName::Ocean),
        palette_name_of("psychedelic"@) == Some(PaletteName::Psychedelic),
        palette_name_of("sunset"@) == Some(PaletteName::Sunset),
        palette_name_of("viridis"@) == Some(PaletteName::Viridis),
{
    reveal_strlit("aurora");
    reveal_strlit("glacier");
    reveal_strlit("neon");
    reveal_strlit("ocean");
    reveal_strlit("psychedelic");
    reveal_strlit("sunset");
    reveal_strlit("viridis");
    assert("aurora"@.len() == 6);
    assert("glacier"@.len() == 7);
    assert("neon"@.len() == 4);
    assert("ocean"@.len() == 5);
    assert("psychedelic"@.len() == 11);
    assert("sunset"@.len() == 6);
    assert("viridis"@.len() == 7);
    assert("aurora"@[0] != "sunset"@[0]);
    assert("glacier"@[0] != "viridis"@[0]);
}

} // verus!
