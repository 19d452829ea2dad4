use std::io::Cursor;

use base64::engine::general_purpose::STANDARD;
use base64::Engine;
use ram_core::audio::{AudioCmd, AudioLink};
use ram_core::background::{decode_bytes, decode_still, MAX_DIM, STILL_DELAY_MS};
use ram_core::crypto::{decrypt_store, encrypt_cookie};
use ram_core::models::favorites_migration_outcome;

fn png_bytes(w: u32, h: u32) -> Vec<u8> {
    let buf = image::RgbaImage::from_pixel(w, h, image::Rgba([10, 20, 30, 255]));
    let mut out = Vec::new();
    image::DynamicImage::ImageRgba8(buf)
        .write_to(&mut Cursor::new(&mut out), image::ImageFormat::Png)
        .unwrap();
    out
}

fn gif_bytes(frames: u32, w: u32, h: u32) -> Vec<u8> {
    let mut out = Vec::new();
    {
        let mut enc = image::codecs::gif::GifEncoder::new(&mut out);
        for i in 0..frames {
            let buf = image::RgbaImage::from_pixel(w, h, image::Rgba([(i * 40) as u8, 0, 0, 255]));
            let frame = image::Frame::from_parts(buf, 0, 0, image::Delay::from_numer_denom_ms(50, 1));
            enc.encode_frame(frame).unwrap();
        }
    }
    out
}

fn kinds(cmds: &[AudioCmd]) -> Vec<String> {
    cmds.iter()
        .map(|c| match c {
            AudioCmd::Source(s) => format!("source:{}", s.clone().unwrap_or_default()),
            AudioCmd::Volume => "volume".to_string(),
            AudioCmd::Enabled(b) => format!("enabled:{b}"),
        })
        .collect()
}

#[test]
fn audio_link_opens_nothing_while_sound_is_off() {
    let link = AudioLink::new();
    assert!(!link.needs_spawn(false));
    assert!(link.needs_spawn(true));
}

#[test]
fn audio_link_first_round_sends_everything_then_only_changes() {
    let mut link = AudioLink::new();
    link.spawned(true, true);
    // Even when the caller reports no volume change, the first volume goes out.
    let first = link.commands(true, None, false);
    assert_eq!(kinds(&first), vec!["source:", "volume", "enabled:true"]);
    assert!(link.commands(true, None, false).is_empty());
    assert_eq!(kinds(&link.commands(true, None, true)), vec!["volume"]);
    assert_eq!(kinds(&link.commands(false, None, false)), vec!["enabled:false"]);
    // A new source starts silent: the volume follows it.
    assert_eq!(kinds(&link.commands(false, Some("rain.ogg".to_string()), false)), vec!["source:rain.ogg", "volume"]);
}

#[test]
fn audio_link_gives_up_for_good() {
    let mut link = AudioLink::new();
    link.spawned(false, true);
    assert!(link.is_dead());
    assert!(!link.needs_spawn(true));
    assert!(link.commands(true, None, true).is_empty());

    let mut link = AudioLink::new();
    link.spawned(true, true);
    link.send_failed();
    assert!(!link.needs_spawn(true));
    assert!(link.commands(true, None, true).is_empty());
}

#[test]
fn decode_bytes_reads_a_png_as_one_still() {
    let (frames, truncated) = decode_bytes(&png_bytes(3, 2)).unwrap();
    assert!(!truncated);
    assert_eq!(frames.len(), 1);
    assert_eq!((frames[0].image.width, frames[0].image.height), (3, 2));
    assert_eq!(frames[0].image.pixels.len(), 3 * 2 * 4);
    assert_eq!(&frames[0].image.pixels[0..4], &[10, 20, 30, 255]);
    assert_eq!((frames[0].delay_numer_ms, frames[0].delay_denom_ms), (STILL_DELAY_MS, 1));
}

#[test]
fn decode_still_scales_down_oversized_images() {
    let img = decode_still(&png_bytes(MAX_DIM + 1, 1)).unwrap();
    assert_eq!((img.width, img.height), (MAX_DIM, 1));
    assert_eq!(img.pixels.len(), (MAX_DIM * 4) as usize);
}

#[test]
fn decode_bytes_reads_every_gif_frame() {
    let (frames, truncated) = decode_bytes(&gif_bytes(3, 4, 4)).unwrap();
    assert!(!truncated);
    assert_eq!(frames.len(), 3);
    for f in &frames {
        assert_eq!((f.image.width, f.image.height), (4, 4));
        assert_eq!(f.delay_numer_ms as f64 / f.delay_denom_ms as f64, 50.0);
    }
}

#[test]
fn decode_bytes_rejects_garbage() {
    assert!(decode_bytes(b"this is not an image").is_err());
    // A GIF signature with nothing behind it.
    assert!(decode_bytes(b"GIF89a").is_err());
}

#[test]
fn encrypted_cookie_decodes_to_nonce_ciphertext_and_tag() {
    let cookie = "_|WARNING:-DO-NOT-SHARE-THIS.--|_abc";
    let enc = encrypt_cookie(cookie, "pw").unwrap();
    let blob = STANDARD.decode(enc.as_bytes()).unwrap();
    assert_eq!(blob.len(), 12 + cookie.len() + 16);
}

#[test]
fn corrupted_store_error_names_both_causes() {
    let bytes = ram_core::crypto::encrypt_store(b"{\"accounts\":[]}", "pw").unwrap();
    let mut flipped = bytes.clone();
    flipped[20] ^= 1;
    for (data, pw) in [(&bytes, "other"), (&flipped, "pw")] {
        let err = decrypt_store(data, pw).unwrap_err();
        assert_eq!(
            err.message(),
            "Crypto error: could not decrypt the account store: wrong master password, or the file is corrupted"
        );
    }
}

#[test]
fn favorites_are_saved_only_when_one_migrated() {
    assert_eq!(favorites_migration_outcome(&vec![]), (0, false));
    assert_eq!(favorites_migration_outcome(&vec![false, false]), (0, false));
    assert_eq!(favorites_migration_outcome(&vec![false, true, true]), (2, true));
}
