use base64::Engine;
use image::ImageEncoder;
use tauri_plugin_clipboard::codec::{decode, encode, encode_binary, READ_BACK_LIMIT};
use tauri_plugin_clipboard::{ClipboardManager, Error, RawImage};

fn sample_image() -> RawImage {
    RawImage {
        width: 2,
        height: 2,
        pixels: vec![
            255, 0, 0, 255, 0, 255, 0, 128, 0, 0, 255, 0, 10, 20, 30, 40,
        ],
    }
}

#[test]
fn image_round_trip_keeps_dimensions_and_pixels() {
    let img = sample_image();
    let text = encode(&img).expect("a consistent image encodes");
    let back = decode(&text).expect("encoded text decodes");
    assert_eq!(back, img);
}

#[test]
fn image_round_trip_on_wide_image() {
    let width: u32 = 7;
    let height: u32 = 3;
    let pixels: Vec<u8> = (0..(width * height * 4)).map(|i| (i * 37 % 256) as u8).collect();
    let img = RawImage { width, height, pixels };
    assert!(img.pixels.len() <= READ_BACK_LIMIT);
    let back = decode(&encode(&img).unwrap()).unwrap();
    assert_eq!(back, img);
}

#[test]
fn encode_binary_writes_png() {
    let bytes = encode_binary(&sample_image()).unwrap();
    assert_eq!(&bytes[..8], &[137, 80, 78, 71, 13, 10, 26, 10]);
}

#[test]
fn encode_gives_base64_of_png() {
    let img = sample_image();
    let bytes = encode_binary(&img).unwrap();
    let text = encode(&img).unwrap();
    assert!(text.starts_with("iVBORw0KGgo"));
    assert!(!text.ends_with('='));
    assert_eq!(text, base64::engine::general_purpose::STANDARD_NO_PAD.encode(&bytes));
}

#[test]
fn encode_rejects_short_buffer() {
    let img = RawImage { width: 2, height: 2, pixels: vec![0; 15] };
    match encode(&img) {
        Err(Error::DimensionMismatch { width, height, len }) => {
            assert_eq!((width, height, len), (2, 2, 15));
        }
        other => panic!("expected a dimension mismatch, got {:?}", other),
    }
}

#[test]
fn encode_binary_rejects_long_buffer() {
    let img = RawImage { width: 1, height: 1, pixels: vec![0; 5] };
    assert!(matches!(encode_binary(&img), Err(Error::DimensionMismatch { .. })));
}

#[test]
fn encode_rejects_pixels_for_empty_image() {
    let img = RawImage { width: 0, height: 3, pixels: vec![1, 2, 3, 4] };
    assert!(matches!(encode(&img), Err(Error::DimensionMismatch { len: 4, .. })));
}

#[test]
fn decode_rejects_invalid_base64() {
    assert!(matches!(decode("not base64!"), Err(Error::Base64(_))));
}

#[test]
fn decode_rejects_padded_base64() {
    assert!(matches!(decode("aGk="), Err(Error::Base64(_))));
}

#[test]
fn decode_rejects_bytes_that_are_no_image() {
    // "hello" in unpadded base64
    assert!(matches!(decode("aGVsbG8"), Err(Error::Decode(_))));
}

#[test]
fn decode_rejects_empty_text() {
    assert!(matches!(decode(""), Err(Error::Decode(_))));
}

#[test]
fn decode_expands_grayscale_to_rgba() {
    let mut png: Vec<u8> = Vec::new();
    image::codecs::png::PngEncoder::new(&mut png)
        .write_image(&[0, 100, 200], 3, 1, image::ColorType::L8)
        .unwrap();
    let text = base64::engine::general_purpose::STANDARD_NO_PAD.encode(&png);
    let img = decode(&text).unwrap();
    assert_eq!((img.width, img.height), (3, 1));
    assert_eq!(img.pixels, vec![0, 0, 0, 255, 100, 100, 100, 255, 200, 200, 200, 255]);
}

#[test]
fn decode_expands_rgb_to_rgba() {
    let mut png: Vec<u8> = Vec::new();
    image::codecs::png::PngEncoder::new(&mut png)
        .write_image(&[1, 2, 3, 4, 5, 6], 1, 2, image::ColorType::Rgb8)
        .unwrap();
    let text = base64::engine::general_purpose::STANDARD_NO_PAD.encode(&png);
    let img = decode(&text).unwrap();
    assert_eq!((img.width, img.height), (1, 2));
    assert_eq!(img.pixels, vec![1, 2, 3, 255, 4, 5, 6, 255]);
}

#[test]
fn manager_read_image_encodes() {
    let manager = ClipboardManager::default();
    let img = sample_image();
    let text = manager.read_image(&img).unwrap();
    assert_eq!(text, encode(&img).unwrap());
    let bytes = manager.read_image_binary(&img).unwrap();
    assert_eq!(bytes, encode_binary(&img).unwrap());
}

#[test]
fn manager_read_image_rejects_mismatch() {
    let manager = ClipboardManager::new();
    let img = RawImage { width: 3, height: 1, pixels: vec![0; 4] };
    assert!(matches!(manager.read_image(&img), Err(Error::DimensionMismatch { .. })));
    assert!(matches!(manager.read_image_binary(&img), Err(Error::DimensionMismatch { .. })));
}

#[test]
fn manager_write_image_decodes() {
    let manager = ClipboardManager::new();
    let img = sample_image();
    let text = manager.read_image(&img).unwrap();
    assert_eq!(manager.write_image(text).unwrap(), img);
}

#[test]
fn manager_write_image_rejects_invalid_base64() {
    let manager = ClipboardManager::new();
    assert!(matches!(manager.write_image("%%%".to_string()), Err(Error::Base64(_))));
    assert!(matches!(manager.write_image("aGVsbG8".to_string()), Err(Error::Decode(_))));
}
