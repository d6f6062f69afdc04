use vstd::prelude::*;
use crate::palettes::{PaletteName, palette_name_of, parse_palette_name, str_equal};
use crate::values::{HEIGHT, WIDTH};

verus! {

/// How a grayscale noise field is turned into the final image.
#[derive(Clone, Copy, Debug, PartialEq, Eq, Structural)]
pub enum Coloring {
    /// Kept as a grayscale image.
    Grayscale,
    /// Coloured with a freshly drawn random palette.
    RandomPalette,
    /// Coloured with a named palette.
    Palette(PaletteName),
}

/// A colouring that names no listed palette.
#[derive(Clone, Copy, Debug, PartialEq, Eq, Structural)]
pub enum ColoringError {
    UnlistedPalette,
}

/// The number of colours in a random palette.
pub const RANDOM_PALETTE_COLORS: u8 = 6;

/// The colouring that a request's `colored` text asks for.
pub open spec fn coloring_of(colored: Seq<char>) -> Result<Coloring, ColoringError> {
    if colored == "grayscale"@ {
        Ok(Coloring::Grayscale)
    } else if colored == "random"@ {
        Ok(Coloring::RandomPalette)
    } else {
        match palette_name_of(colored) {
            Some(name) => Ok(Coloring::Palette(name)),
            None => Err(ColoringError::UnlistedPalette),
        }
    }
}

/// The text that stands for the colouring when a request gives none.
pub open spec fn default_coloring_text() -> Seq<char> {
    "random"@
}

/// Decides how to colour an image from the request's optional `colored`
/// text: no text means a random palette.
pub fn choose_coloring(colored: Option<String>) -> (r: Result<Coloring, ColoringError>)
    ensures
        r == coloring_of(
            match colored {
                Some(s) => s@,
                None => default_coloring_text(),
            },
        ),
{
    match colored {
        None => {
            proof {
                reveal_strlit("random");
                reveal_strlit("grayscale");
                assert("random"@.len() == 6);
                assert("grayscale"@.len() == 9);
                assert(coloring_of(default_coloring_text()) == Ok::<Coloring, ColoringError>(Coloring::RandomPalette));
            }
            Ok(Coloring::RandomPalette)
        },
        Some(text) => {
            let t = text.as_str();
            if str_equal(t, "grayscale") {
                Ok(Coloring::Grayscale)
            } else if str_equal(t, "random") {
                Ok(Coloring::RandomPalette)
            } else {
                match parse_palette_name(t) {
                    Some(name) => Ok(Coloring::Palette(name)),
                    None => Err(ColoringError::UnlistedPalette),
                }
            }
        },
    }
}

/// A listed palette name colours the image with that palette; only the
/// text "random" draws a random palette and only "grayscale" keeps the
/// image gray; any other text is refused.
pub proof fn lemma_coloring_by_text(colored: Seq<char>)
    ensures
        palette_name_of(colored) matches Some(name) ==> coloring_of(colored) == Ok::<
            Coloring,
            ColoringError,
        >(Coloring::Palette(name)),
        coloring_of(colored) == Ok::<Coloring, ColoringError>(Coloring::RandomPalette) <==> colored
            == "random"@,
        coloring_of(colored) == Ok::<Coloring, ColoringError>(Coloring::Grayscale) <==> colored
            == "grayscale"@,
        coloring_of(colored) is Err <==> (palette_name_of(colored) is None && colored != "random"@
            && colored != "grayscale"@),
{
    crate::palettes::lemma_listed_names_resolve();
    reveal_strlit("aurora");
    reveal_strlit("glacier");
    reveal_strlit("neon");
    reveal_strlit("ocean");
    reveal_strlit("psychedelic");
    reveal_strlit("sunset");
    reveal_strlit("viridis");
    reveal_strlit("random");
    reveal_strlit("grayscale");
    assert("random"@.len() == 6);
    assert("grayscale"@.len() == 9);
    assert("aurora"@.len() == 6);
    assert("sunset"@.len() == 6);
    assert("glacier"@.len() == 7);
    assert("viridis"@.len() == 7);
    assert("neon"@.len() == 4);
    assert("ocean"@.len() == 5);
    assert("psychedelic"@.len() == 11);
    assert("random"@[0] != "aurora"@[0]);
    assert("random"@[0] != "sunset"@[0]);
    assert(palette_name_of("random"@) is None);
    assert(palette_name_of("grayscale"@) is None);
}

/// Decides how to colour an image from a yes-or-no `colored` flag: colour
/// with a random palette, or keep the image grayscale.
pub fn choose_coloring_flag(colored: bool) -> (c: Coloring)
    ensures
        c == (if colored {
            Coloring::RandomPalette
        } else {
            Coloring::Grayscale
        }),
{
    if colored {
        Coloring::RandomPalette
    } else {
        Coloring::Grayscale
    }
}

/// The number of pixels of every generated image.
pub open spec fn image_pixels() -> nat {
    (WIDTH as nat) * (HEIGHT as nat)
}

/// The number of pixels of every generated image.
pub fn image_pixel_count() -> (n: usize)
    ensures
        n == image_pixels(),
{
    assert(WIDTH == 2500 && HEIGHT == 2500);
    assert((WIDTH as usize) * (HEIGHT as usize) == 6_250_000) by (nonlinear_arith)
        requires
            WIDTH == 2500 && HEIGHT == 2500,
    ;
    (WIDTH as usize) * (HEIGHT as usize)
}

} // verus!
