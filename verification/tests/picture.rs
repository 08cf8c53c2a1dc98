use rust_pomodoro::picture::{
    fallback_icon, fallback_texture, icon_or_fallback, load_icon, load_texture,
    texture_or_fallback, Picture, FALLBACK_ICON_SIZE, FALLBACK_SPRITE_SIZE,
};

const TWO_BY_TWO: [u8; 80] = [
    137, 80, 78, 71, 13, 10, 26, 10, 0, 0, 0, 13, 73, 72, 68, 82, 0, 0, 0, 2, 0, 0, 0, 2, 8, 6, 0,
    0, 0, 114, 182, 13, 36, 0, 0, 0, 23, 73, 68, 65, 84, 120, 218, 99, 248, 207, 192, 240, 31, 8,
    27, 24, 128, 180, 3, 151, 136, 28, 3, 0, 55, 193, 4, 249, 71, 158, 108, 179, 0, 0, 0, 0, 73,
    69, 78, 68, 174, 66, 96, 130,
];

const ONE_GREY_PIXEL: [u8; 67] = [
    137, 80, 78, 71, 13, 10, 26, 10, 0, 0, 0, 13, 73, 72, 68, 82, 0, 0, 0, 1, 0, 0, 0, 1, 8, 0, 0,
    0, 0, 58, 126, 155, 85, 0, 0, 0, 10, 73, 68, 65, 84, 120, 218, 99, 56, 1, 0, 0, 202, 0, 201,
    52, 66, 39, 243, 0, 0, 0, 0, 73, 69, 78, 68, 174, 66, 96, 130,
];

fn two_by_two() -> Picture {
    Picture {
        rgba: vec![255, 0, 0, 255, 0, 255, 0, 128, 0, 0, 255, 64, 10, 20, 30, 0],
        width: 2,
        height: 2,
    }
}

#[test]
fn the_fallback_icon_is_a_red_square() {
    let icon = fallback_icon();
    assert_eq!(FALLBACK_ICON_SIZE, 32);
    assert_eq!(icon.width, 32);
    assert_eq!(icon.height, 32);
    assert_eq!(icon.rgba.len(), 32 * 32 * 4);
    assert_eq!(icon.rgba, [255u8, 0, 0, 255].repeat(32 * 32));
}

#[test]
fn the_fallback_sprite_is_a_red_disc() {
    let sprite = fallback_texture();
    assert_eq!(FALLBACK_SPRITE_SIZE, 60);
    assert_eq!(sprite.width, 60);
    assert_eq!(sprite.height, 60);
    assert_eq!(sprite.rgba.len(), 60 * 60 * 4);
    let pixel = |x: usize, y: usize| {
        let at = (y * 60 + x) * 4;
        [sprite.rgba[at], sprite.rgba[at + 1], sprite.rgba[at + 2], sprite.rgba[at + 3]]
    };
    assert_eq!(pixel(30, 30), [255, 99, 71, 255]);
    assert_eq!(pixel(0, 0), [0, 0, 0, 0]);
    assert_eq!(pixel(59, 59), [0, 0, 0, 0]);
    assert_eq!(pixel(57, 30), [255, 99, 71, 255]);
    assert_eq!(pixel(58, 30), [0, 0, 0, 0]);
    assert_eq!(pixel(3, 30), [255, 99, 71, 255]);
    assert_eq!(pixel(2, 30), [0, 0, 0, 0]);
    assert_eq!(pixel(30, 57), [255, 99, 71, 255]);
    assert_eq!(pixel(30, 58), [0, 0, 0, 0]);
    assert_eq!(pixel(49, 50), [255, 99, 71, 255]);
    assert_eq!(pixel(50, 50), [0, 0, 0, 0]);
    for y in 0..60usize {
        for x in 0..60usize {
            let dx = x as f32 - 30.0;
            let dy = y as f32 - 30.0;
            let inside = (dx * dx + dy * dy).sqrt() < 28.0;
            let expected = if inside { [255, 99, 71, 255] } else { [0, 0, 0, 0] };
            assert_eq!(pixel(x, y), expected);
        }
    }
}

#[test]
fn an_icon_file_that_decodes_is_shown_as_it_is() {
    assert_eq!(load_icon(&TWO_BY_TWO), two_by_two());
}

#[test]
fn a_grey_picture_is_spread_over_the_colour_channels() {
    assert_eq!(
        load_icon(&ONE_GREY_PIXEL),
        Picture { rgba: vec![200, 200, 200, 255], width: 1, height: 1 }
    );
}

#[test]
fn an_icon_file_that_does_not_decode_gives_the_red_square() {
    assert_eq!(load_icon(&[]), fallback_icon());
    assert_eq!(load_icon(b"not a picture"), fallback_icon());
    assert_eq!(load_icon(&TWO_BY_TWO[..40]), fallback_icon());
    let mut damaged = TWO_BY_TWO;
    damaged[30] ^= 0xff;
    assert_eq!(load_icon(&damaged), fallback_icon());
}

#[test]
fn the_first_sprite_file_that_decodes_is_shown() {
    assert_eq!(load_texture(&vec![TWO_BY_TWO.to_vec()]), two_by_two());
    assert_eq!(
        load_texture(&vec![b"junk".to_vec(), Vec::new(), TWO_BY_TWO.to_vec(), ONE_GREY_PIXEL.to_vec()]),
        two_by_two()
    );
    assert_eq!(
        load_texture(&vec![ONE_GREY_PIXEL.to_vec(), TWO_BY_TWO.to_vec()]),
        Picture { rgba: vec![200, 200, 200, 255], width: 1, height: 1 }
    );
}

#[test]
fn no_sprite_file_that_decodes_gives_the_red_disc() {
    assert_eq!(load_texture(&Vec::new()), fallback_texture());
    assert_eq!(load_texture(&vec![b"junk".to_vec(), Vec::new()]), fallback_texture());
}

#[test]
fn a_decoded_picture_is_kept_and_a_missing_one_replaced() {
    assert_eq!(icon_or_fallback(Some(two_by_two())), two_by_two());
    assert_eq!(icon_or_fallback(None), fallback_icon());
    assert_eq!(texture_or_fallback(Some(two_by_two())), two_by_two());
    assert_eq!(texture_or_fallback(None), fallback_texture());
}
