//! Colour lookup tables: 256 colours each, looked up by name.

use crate::pixel::RGBAPixel;
use vstd::prelude::*;

verus! {

/// A colour map is always 256 colours.
pub type ColorMap = [RGBAPixel; 256];

/// The red channel of the 64 anchor colours of the parula map.
pub const PARULA_RED: [u8; 64] = [
    53, 54, 54, 53, 50, 44, 32, 15, 3, 2, 4, 8, 13, 16, 18, 20,
    20, 19, 16, 12, 9, 7, 6, 6, 6, 7, 10, 15, 21, 29, 37, 46,
    56, 66, 77, 89, 101, 113, 124, 135, 146, 156, 165, 174, 183, 192, 200, 209,
    217, 225, 233, 241, 248, 253, 255, 254, 252, 250, 247, 245, 245, 245, 246, 249,
];

/// The green channel of the 64 anchor colours of the parula map.
pub const PARULA_GREEN: [u8; 64] = [
    42, 48, 55, 61, 67, 74, 83, 92, 99, 104, 109, 113, 117, 121, 125, 129,
    133, 137, 142, 147, 152, 156, 160, 164, 167, 169, 172, 174, 177, 179, 181, 183,
    185, 187, 188, 189, 190, 191, 191, 191, 191, 191, 190, 190, 189, 188, 188, 187,
    186, 185, 185, 185, 187, 190, 195, 200, 206, 211, 216, 222, 228, 235, 243, 251,
];

/// The blue channel of the 64 anchor colours of the parula map.
pub const PARULA_BLUE: [u8; 64] = [
    135, 147, 160, 173, 186, 199, 212, 221, 225, 225, 224, 222, 220, 218, 216, 214,
    212, 211, 210, 210, 209, 207, 205, 202, 198, 194, 190, 185, 180, 175, 169, 164,
    158, 152, 146, 140, 134, 128, 123, 119, 115, 111, 107, 103, 100, 96, 93, 89,
    86, 82, 78, 74, 68, 61, 55, 50, 46, 42, 38, 33, 29, 24, 19, 14,
];

/// Entry `i` of the grayscale map: the gray level `i`, opaque.
pub open spec fn grayscale_entry(i: int) -> RGBAPixel {
    RGBAPixel { r: i as u8, g: i as u8, b: i as u8, a: 255 }
}

/// Entry `i` of the red map: red at level `i`, opaque.
pub open spec fn red_entry(i: int) -> RGBAPixel {
    RGBAPixel { r: i as u8, g: 0, b: 0, a: 255 }
}

/// Entry `i` of the hot map: from blue through cyan in the lower half, from
/// cyan to yellow in the upper half.
pub open spec fn hot_entry(i: int) -> RGBAPixel {
    if i < 128 {
        RGBAPixel { r: 0, g: (2 * i) as u8, b: 255, a: 255 }
    } else {
        RGBAPixel { r: (i - 128) as u8, g: 255, b: (255 - (i - 128)) as u8, a: 255 }
    }
}

/// Entry `i` of the parula map: the anchor colour `i / 4`, opaque.
pub open spec fn parula_entry(i: int) -> RGBAPixel {
    RGBAPixel { r: PARULA_RED[i / 4], g: PARULA_GREEN[i / 4], b: PARULA_BLUE[i / 4], a: 255 }
}

/// The grayscale map as a sequence of 256 colours.
pub open spec fn grayscale_table() -> Seq<RGBAPixel> {
    Seq::new(256, |i: int| grayscale_entry(i))
}

/// The red map as a sequence of 256 colours.
pub open spec fn red_table() -> Seq<RGBAPixel> {
    Seq::new(256, |i: int| red_entry(i))
}

/// The hot map as a sequence of 256 colours.
pub open spec fn hot_table() -> Seq<RGBAPixel> {
    Seq::new(256, |i: int| hot_entry(i))
}

/// The parula map as a sequence of 256 colours.
pub open spec fn parula_table() -> Seq<RGBAPixel> {
    Seq::new(256, |i: int| parula_entry(i))
}

/// The table that a map name stands for; the grayscale table for any other
/// string.
pub open spec fn named_table(name: Seq<char>) -> Seq<RGBAPixel> {
    if name == "Parula"@ {
        parula_table()
    } else if name == "Hot"@ {
        hot_table()
    } else if name == "Red"@ {
        red_table()
    } else {
        grayscale_table()
    }
}

/// Whether a name is one of the four map names.
pub open spec fn is_map_name(name: Seq<char>) -> bool {
    name == "Parula"@ || name == "Hot"@ || name == "Grayscale"@ || name == "Red"@
}

/// `str`'s `==` of the standard library: true where both strings hold the
/// same characters.
#[verifier::external_body]
fn str_eq(a: &str, b: &str) -> (same: bool)
    ensures
        same == (a@ == b@),
{
    a == b
}

/// The grayscale colour map.
pub fn grayscale() -> (cmap: ColorMap)
    ensures
        cmap@ == grayscale_table(),
{
    let mut colormap: ColorMap = [RGBAPixel { r: 0, g: 0, b: 0, a: 0 };256];
    let mut i: usize = 0;
    while i < 256
        invariant
            i <= 256,
            forall|k: int| 0 <= k < i ==> colormap@[k] == grayscale_entry(k),
        decreases 256 - i,
    {
        colormap[i] = RGBAPixel { r: i as u8, g: i as u8, b: i as u8, a: 255 };
        i = i + 1;
    }
    colormap
}

/// The red colour map.
pub fn red() -> (cmap: ColorMap)
    ensures
        cmap@ == red_table(),
{
    let mut colormap: ColorMap = [RGBAPixel { r: 0, g: 0, b: 0, a: 0 };256];
    let mut i: usize = 0;
    while i < 256
        invariant
            i <= 256,
            forall|k: int| 0 <= k < i ==> colormap@[k] == red_entry(k),
        decreases 256 - i,
    {
        colormap[i] = RGBAPixel { r: i as u8, g: 0, b: 0, a: 255 };
        i = i + 1;
    }
    colormap
}

/// The hot colour map.
pub fn hot() -> (cmap: ColorMap)
    ensures
        cmap@ == hot_table(),
{
    let mut colormap: ColorMap = [RGBAPixel { r: 0, g: 0, b: 0, a: 0 };256];
    let mut i: usize = 0;
    while i < 128
        invariant
            i <= 128,
            forall|k: int| 0 <= k < i ==> colormap@[k] == hot_entry(k),
        decreases 128 - i,
    {
        colormap[i] = RGBAPixel { r: 0, g: (i * 2) as u8, b: 255, a: 255 };
        i = i + 1;
    }
    while i < 256
        invariant
            128 <= i <= 256,
            forall|k: int| 0 <= k < i ==> colormap@[k] == hot_entry(k),
        decreases 256 - i,
    {
        colormap[i] = RGBAPixel { r: (i - 128) as u8, g: 255, b: 255 - (i - 128) as u8, a: 255 };
        i = i + 1;
    }
    colormap
}

/// The parula colour map.
pub fn parula() -> (cmap: ColorMap)
    ensures
        cmap@ == parula_table(),
{
    let mut colormap: ColorMap = [RGBAPixel { r: 0, g: 0, b: 0, a: 0 };256];
    let mut i: usize = 0;
    while i < 256
        invariant
            i <= 256,
            forall|k: int| 0 <= k < i ==> colormap@[k] == parula_entry(k),
        decreases 256 - i,
    {
        let anchor: usize = i / 4;
        colormap[i] = RGBAPixel {
            r: PARULA_RED[anchor],
            g: PARULA_GREEN[anchor],
            b: PARULA_BLUE[anchor],
            a: 255,
        };
        i = i + 1;
    }
    colormap
}

/// The colour map of the given name, or `None` where the name is not that of
/// a map.
pub fn from_string(name: &str) -> (cmap: Option<ColorMap>)
    ensures
        cmap is Some <==> is_map_name(name@),
        cmap is Some ==> cmap->Some_0@ == named_table(name@),
{
    proof {
        lemma_map_names_differ();
    }
    if str_eq(name, "Parula") {
        Some(parula())
    } else if str_eq(name, "Hot") {
        Some(hot())
    } else if str_eq(name, "Grayscale") {
        Some(grayscale())
    } else if str_eq(name, "Red") {
        Some(red())
    } else {
        None
    }
}

/// The colour map of the given name, or the grayscale map where the name is
/// not that of a map.
pub fn lut(name: &str) -> (cmap: ColorMap)
    ensures
        cmap@ == named_table(name@),
{
    match from_string(name) {
        Some(cmap) => cmap,
        None => grayscale(),
    }
}

/// The four map names are four different strings.
pub proof fn lemma_map_names_differ()
    ensures
        "Parula"@ != "Hot"@,
        "Parula"@ != "Grayscale"@,
        "Parula"@ != "Red"@,
        "Hot"@ != "Grayscale"@,
        "Hot"@ != "Red"@,
        "Grayscale"@ != "Red"@,
{
    reveal_strlit("Parula");
    reveal_strlit("Hot");
    reveal_strlit("Grayscale");
    reveal_strlit("Red");
    assert("Parula"@.len() == 6);
    assert("Hot"@.len() == 3);
    assert("Grayscale"@.len() == 9);
    assert("Red"@[0] == 'R');
    assert("Hot"@[0] == 'H');
}

/// One thousand times the gamma at which intensities are displayed unchanged.
pub const GAMMA_UNIT: u32 = 1000;

/// A gamma closer to 1 than this many thousandths is taken for 1.
pub const GAMMA_TOLERANCE: u32 = 20;

/// Whether a gamma, in thousandths, is taken for 1.
pub open spec fn unit_gamma(gamma_permille: u32) -> bool {
    GAMMA_UNIT - GAMMA_TOLERANCE < gamma_permille < GAMMA_UNIT + GAMMA_TOLERANCE
}

/// Whether a gamma, in thousandths, is close enough to 1 to leave intensities
/// as they are.
pub fn is_unit_gamma(gamma_permille: u32) -> (unit: bool)
    ensures
        unit == unit_gamma(gamma_permille),
{
    GAMMA_UNIT - GAMMA_TOLERANCE < gamma_permille && gamma_permille < GAMMA_UNIT + GAMMA_TOLERANCE
}

/// The colour map warped by a gamma: entry `i` of the result is the entry of
/// `lut` that `warp` sends `i` to. Where the gamma is taken for 1 the map is
/// returned as it is.
pub fn apply_gamma(lut: &ColorMap, gamma_permille: u32, warp: &[u8; 256]) -> (warped: ColorMap)
    ensures
        unit_gamma(gamma_permille) ==> warped@ == lut@,
        !unit_gamma(gamma_permille) ==> forall|i: int|
            0 <= i < 256 ==> warped@[i] == lut@[warp@[i] as int],
{
    if is_unit_gamma(gamma_permille) {
        return *lut;
    }
    let mut colormap: ColorMap = *lut;
    let mut i: usize = 0;
    while i < 256
        invariant
            i <= 256,
            forall|k: int| 0 <= k < i ==> colormap@[k] == lut@[warp@[k] as int],
        decreases 256 - i,
    {
        colormap[i] = lut[warp[i] as usize];
        i = i + 1;
    }
    colormap
}

/// The colour map in reverse order: entry `i` of the result is entry
/// `255 - i` of `lut`.
pub fn reversed(lut: &ColorMap) -> (rev: ColorMap)
    ensures
        forall|i: int| 0 <= i < 256 ==> rev@[i] == lut@[255 - i],
{
    let mut colormap: ColorMap = *lut;
    let mut i: usize = 0;
    while i < 256
        invariant
            i <= 256,
            forall|k: int| 0 <= k < i ==> colormap@[k] == lut@[255 - k],
        decreases 256 - i,
    {
        colormap[i] = lut[255 - i];
        i = i + 1;
    }
    colormap
}

/// The colour bar beside the picture: the map from its last colour to its
/// first, warped by the gamma as the picture is.
pub fn colorbar(lut: &ColorMap, gamma_permille: u32, warp: &[u8; 256]) -> (bar: ColorMap)
    ensures
        unit_gamma(gamma_permille) ==> forall|i: int| 0 <= i < 256 ==> bar@[i] == lut@[255 - i],
        !unit_gamma(gamma_permille) ==> forall|i: int|
            0 <= i < 256 ==> bar@[i] == lut@[255 - warp@[i]],
{
    let top_down = reversed(lut);
    apply_gamma(&top_down, gamma_permille, warp)
}

} // verus!
