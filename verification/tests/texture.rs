use tetris::color::Rgb;
use tetris::color::TextureColor;
use tetris::texture::square_texture;
use tetris::texture::TextureRequest;
use tetris::texture::TEXTURE_SIZE;

#[test]
fn green_is_pure_green() {
    assert_eq!(TextureColor::Green.rgb(), Rgb { r: 0, g: 255, b: 0 });
}

#[test]
fn blue_is_pure_blue() {
    assert_eq!(TextureColor::Blue.rgb(), Rgb { r: 0, g: 0, b: 255 });
}

#[test]
fn phase_selects_the_square() {
    assert_eq!(TextureColor::for_phase(true), TextureColor::Green);
    assert_eq!(TextureColor::for_phase(false), TextureColor::Blue);
}

#[test]
fn squares_are_thirty_two_pixels() {
    assert_eq!(TEXTURE_SIZE, 32);
}

#[test]
fn square_is_as_wide_as_high() {
    assert_eq!(
        square_texture(TextureColor::Green, TEXTURE_SIZE),
        TextureRequest { width: 32, height: 32, fill: Rgb { r: 0, g: 255, b: 0 } }
    );
    assert_eq!(
        square_texture(TextureColor::Blue, 7),
        TextureRequest { width: 7, height: 7, fill: Rgb { r: 0, g: 0, b: 255 } }
    );
}

#[test]
fn square_of_any_size_is_described() {
    let none = square_texture(TextureColor::Blue, 0);
    assert_eq!((none.width, none.height), (0, 0));
    let huge = square_texture(TextureColor::Green, u32::MAX);
    assert_eq!((huge.width, huge.height), (u32::MAX, u32::MAX));
}

#[test]
fn same_request_twice() {
    let first = square_texture(TextureColor::Green, 32);
    let mut second = square_texture(TextureColor::Green, 32);
    assert_eq!(first, second);
    second.fill.g = 1;
    assert_eq!(first.fill, Rgb { r: 0, g: 255, b: 0 });
    assert_ne!(first, second);
}

#[test]
fn tags_differ_in_fill() {
    assert_ne!(
        square_texture(TextureColor::Green, 32).fill,
        square_texture(TextureColor::Blue, 32).fill
    );
}
