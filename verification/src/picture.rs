//! The pictures the application shows: the window icon and the tomato
//! sprite, each decoded from an image file where that works and drawn by hand
//! where it does not.

use vstd::prelude::*;

verus! {

/// The side of the icon drawn when the icon file cannot be decoded, in
/// pixels.
pub const FALLBACK_ICON_SIZE: u32 = 32;

/// The side of the sprite drawn when no sprite file can be decoded, in
/// pixels.
pub const FALLBACK_SPRITE_SIZE: u32 = 60;

/// A picture as rows of pixels from the top, each pixel four bytes: red,
/// green, blue and alpha.
#[derive(Debug, PartialEq, Eq)]
pub struct Picture {
    pub rgba: Vec<u8>,
    pub width: u32,
    pub height: u32,
}

impl Picture {
    /// Whether the picture has four bytes for each of its pixels.
    pub open spec fn is_complete(self) -> bool {
        self.rgba@.len() == 4 * self.width * self.height
    }

    /// The picture as plain values: its bytes, its width and its height.
    pub open spec fn parts(self) -> (Seq<u8>, u32, u32) {
        (self.rgba@, self.width, self.height)
    }
}

/// The plain values of a picture that may be missing.
pub open spec fn parts_of(picture: Option<Picture>) -> Option<(Seq<u8>, u32, u32)> {
    match picture {
        Some(picture) => Some(picture.parts()),
        None => None,
    }
}

/// What the image decoder makes of the bytes of an image file: the pixels as
/// red, green, blue and alpha with the width and the height, or nothing where
/// the bytes are not an image it reads.
pub uninterp spec fn decoded_image(bytes: Seq<u8>) -> Option<(Seq<u8>, u32, u32)>;

/// Decodes an image file held in memory with `image::load_from_memory` and
/// converts the result to eight-bit RGBA with `DynamicImage::to_rgba8`. The
/// decoder guesses the format from the first bytes and reads the file under
/// its default limits; what comes out depends on the bytes alone, and it is
/// this that `decoded_image` names. The converted buffer is made with four
/// bytes for each pixel of the decoded width and height.
#[verifier::external_body]
pub(crate) fn decode_rgba(bytes: &[u8]) -> (decoded: Option<Picture>)
    ensures
        parts_of(decoded) == decoded_image(bytes@),
        decoded matches Some(picture) ==> picture.is_complete(),
{
    match image::load_from_memory(bytes) {
        Ok(image) => {
            let rgba = image.to_rgba8();
            let (width, height) = rgba.dimensions();
            Some(Picture { rgba: rgba.into_raw(), width, height })
        },
        Err(_) => None,
    }
}

/// One byte of a pixel of opaque red.
pub open spec fn red_channel(channel: int) -> u8 {
    if channel == 1 || channel == 2 {
        0
    } else {
        255
    }
}

/// One byte of a pixel of opaque tomato red.
pub open spec fn tomato_channel(channel: int) -> u8 {
    if channel == 1 {
        99
    } else if channel == 2 {
        71
    } else {
        255
    }
}

/// The bytes of a square of opaque red, `side` pixels wide.
pub open spec fn red_square(side: nat) -> Seq<u8> {
    Seq::new(4 * side * side, |index: int| red_channel(index % 4))
}

/// Whether the pixel in column `x` and row `y` of the fallback sprite lies
/// inside the disc: less than 28 pixels from the pixel in column 30 and row
/// 30.
pub open spec fn in_disc(x: int, y: int) -> bool {
    (x - 30) * (x - 30) + (y - 30) * (y - 30) < 784
}

/// The bytes of the fallback sprite: a disc of opaque tomato red on a clear
/// ground, 60 pixels wide and high.
pub open spec fn red_disc() -> Seq<u8> {
    Seq::new(
        14400,
        |index: int|
            if in_disc((index / 4) % 60, (index / 4) / 60) {
                tomato_channel(index % 4)
            } else {
                0
            },
    )
}

/// The icon drawn when the icon file cannot be decoded: a red square.
pub fn fallback_icon() -> (icon: Picture)
    ensures
        icon.rgba@ == red_square(32),
        icon.width == 32,
        icon.height == 32,
        icon.is_complete(),
{
    let mut rgba: Vec<u8> = Vec::new();
    let mut pixel: u32 = 0;
    while pixel < FALLBACK_ICON_SIZE * FALLBACK_ICON_SIZE
        invariant
            pixel <= 1024,
            rgba@.len() == 4 * pixel,
            forall|index: int| 0 <= index < rgba@.len() ==> rgba@[index] == red_channel(index % 4),
        decreases 1024 - pixel,
    {
        rgba.push(255);
        rgba.push(0);
        rgba.push(0);
        rgba.push(255);
        pixel = pixel + 1;
    }
    assert(rgba@ =~= red_square(32));
    Picture { rgba, width: FALLBACK_ICON_SIZE, height: FALLBACK_ICON_SIZE }
}

/// The sprite drawn when no sprite file can be decoded: a red disc.
pub fn fallback_texture() -> (sprite: Picture)
    ensures
        sprite.rgba@ == red_disc(),
        sprite.width == 60,
        sprite.height == 60,
        sprite.is_complete(),
{
    let mut rgba: Vec<u8> = Vec::new();
    let mut y: u32 = 0;
    while y < FALLBACK_SPRITE_SIZE
        invariant
            y <= 60,
            rgba@.len() == 240 * y,
            forall|index: int| 0 <= index < rgba@.len() ==> rgba@[index] == red_disc()[index],
        decreases 60 - y,
    {
        let mut x: u32 = 0;
        while x < FALLBACK_SPRITE_SIZE
            invariant
                y < 60,
                x <= 60,
                rgba@.len() == 240 * y + 4 * x,
                forall|index: int| 0 <= index < rgba@.len() ==> rgba@[index] == red_disc()[index],
            decreases 60 - x,
        {
            let dx: i32 = x as i32 - 30;
            let dy: i32 = y as i32 - 30;
            assert(0 <= dx * dx <= 900 && 0 <= dy * dy <= 900) by (nonlinear_arith)
                requires
                    -30 <= dx <= 30,
                    -30 <= dy <= 30,
            ;
            let inside = dx * dx + dy * dy < 784;
            let ghost start = rgba@.len() as int;
            assert((start / 4) % 60 == x && (start / 4) / 60 == y);
            assert(((start + 1) / 4) % 60 == x && ((start + 1) / 4) / 60 == y);
            assert(((start + 2) / 4) % 60 == x && ((start + 2) / 4) / 60 == y);
            assert(((start + 3) / 4) % 60 == x && ((start + 3) / 4) / 60 == y);
            assert(inside == in_disc(x as int, y as int));
            if inside {
                rgba.push(255);
                rgba.push(99);
                rgba.push(71);
                rgba.push(255);
            } else {
                rgba.push(0);
                rgba.push(0);
                rgba.push(0);
                rgba.push(0);
            }
            x = x + 1;
        }
        y = y + 1;
    }
    assert(rgba@ =~= red_disc());
    Picture { rgba, width: FALLBACK_SPRITE_SIZE, height: FALLBACK_SPRITE_SIZE }
}

/// The icon to show, given what the decoder made of the icon file: the
/// decoded picture, or the red square where there is none.
pub fn icon_or_fallback(decoded: Option<Picture>) -> (icon: Picture)
    ensures
        decoded matches Some(picture) ==> icon == picture,
        decoded is None ==> icon.parts() == (red_square(32), 32u32, 32u32),
        (decoded matches Some(picture) ==> picture.is_complete()) ==> icon.is_complete(),
{
    match decoded {
        Some(picture) => picture,
        None => fallback_icon(),
    }
}

/// The sprite to show, given what the decoder made of the sprite file: the
/// decoded picture, or the red disc where there is none.
pub fn texture_or_fallback(decoded: Option<Picture>) -> (sprite: Picture)
    ensures
        decoded matches Some(picture) ==> sprite == picture,
        decoded is None ==> sprite.parts() == (red_disc(), 60u32, 60u32),
        (decoded matches Some(picture) ==> picture.is_complete()) ==> sprite.is_complete(),
{
    match decoded {
        Some(picture) => picture,
        None => fallback_texture(),
    }
}

/// The parts of the icon for an icon file with the given bytes.
pub open spec fn icon_parts(bytes: Seq<u8>) -> (Seq<u8>, u32, u32) {
    match decoded_image(bytes) {
        Some(parts) => parts,
        None => (red_square(32), 32u32, 32u32),
    }
}

/// The first of `files` that the decoder reads as an image, decoded.
pub open spec fn first_decoded(files: Seq<Seq<u8>>) -> Option<(Seq<u8>, u32, u32)>
    decreases files.len(),
{
    if files.len() == 0 {
        None
    } else {
        match decoded_image(files.first()) {
            Some(parts) => Some(parts),
            None => first_decoded(files.drop_first()),
        }
    }
}

/// The parts of the sprite for the sprite files with the given bytes, in the
/// order in which they are tried.
pub open spec fn texture_parts(files: Seq<Seq<u8>>) -> (Seq<u8>, u32, u32) {
    match first_decoded(files) {
        Some(parts) => parts,
        None => (red_disc(), 60u32, 60u32),
    }
}

/// The bytes of each of `files`.
pub open spec fn contents(files: Seq<Vec<u8>>) -> Seq<Seq<u8>> {
    Seq::new(files.len(), |index: int| files[index]@)
}

/// Makes the window icon from the bytes of the icon file: the decoded image,
/// or a red square where the bytes do not decode.
pub fn load_icon(bytes: &[u8]) -> (icon: Picture)
    ensures
        icon.parts() == icon_parts(bytes@),
        icon.is_complete(),
{
    icon_or_fallback(decode_rgba(bytes))
}

/// Makes the tomato sprite from the sprite files that could be read, tried in
/// order: the first that decodes, or a red disc where none does.
pub fn load_texture(files: &Vec<Vec<u8>>) -> (sprite: Picture)
    ensures
        sprite.parts() == texture_parts(contents(files@)),
        sprite.is_complete(),
{
    let mut index: usize = 0;
    assert(contents(files@).skip(0) =~= contents(files@));
    while index < files.len()
        invariant
            index <= files.len(),
            first_decoded(contents(files@)) == first_decoded(contents(files@).skip(index as int)),
        decreases files.len() - index,
    {
        let decoded = decode_rgba(files[index].as_slice());
        proof {
            let rest = contents(files@).skip(index as int);
            assert(rest.first() == files@[index as int]@);
            assert(rest.drop_first() =~= contents(files@).skip(index + 1));
        }
        if decoded.is_some() {
            return texture_or_fallback(decoded);
        }
        index = index + 1;
    }
    assert(contents(files@).skip(index as int).len() == 0);
    texture_or_fallback(None)
}

} // verus!
