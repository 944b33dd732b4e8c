use base64::Engine;
use base64::prelude::{BASE64_STANDARD, BASE64_URL_SAFE};
use imgcat::protocol::{encode, is_encodable, is_multiplexer, DisplayOptions};
use imgcat::source::{Image, Source};

const JPEG_HEAD: [u8; 10] = [0xFF, 0xD8, 0xFF, 0xE0, 0x00, 0x10, 0x4A, 0x46, 0x49, 0x46];

fn no_flags() -> DisplayOptions {
    DisplayOptions {
        width: None,
        height: None,
        preserve_aspect_ratio: true,
        file_type: None,
        print_path: false,
    }
}

fn photo() -> Image {
    let s = Source::classify(Some("photo.png"), '/');
    Image::try_new(s, Ok(JPEG_HEAD.to_vec())).unwrap()
}

#[test]
fn local_photo_without_flags() {
    let out = encode(&photo(), &no_flags(), None);
    assert_eq!(
        out,
        "\x1b]1337;File=inline=1;size=10;name=cGhvdG8ucG5n;preserveAspectRatio=1:/9j/4AAQSkZJRg==\x07\n"
    );
    let expected = format!(
        "\x1b]1337;File=inline=1;size=10;name={};preserveAspectRatio=1:{}\x07\n",
        BASE64_URL_SAFE.encode("photo.png"),
        BASE64_STANDARD.encode(JPEG_HEAD)
    );
    assert_eq!(out, expected);
}

#[test]
fn screen_term_uses_multiplexer_framing() {
    let out = encode(&photo(), &no_flags(), Some("screen.xterm-256color"));
    assert!(out.starts_with("\x1bPtmux;\x1b\x1b]1337;File="));
    assert!(out.ends_with("\x07\x1b\\\n"));
}

#[test]
fn tmux_term_uses_multiplexer_framing() {
    let out = encode(&photo(), &no_flags(), Some("tmux-256color"));
    assert!(out.starts_with("\x1bPtmux;\x1b\x1b]"));
    assert!(out.ends_with("\x07\x1b\\\n"));
}

#[test]
fn other_terms_use_plain_framing() {
    for term in [Some("xterm-256color"), Some("xscreen"), Some(""), None] {
        let out = encode(&photo(), &no_flags(), term);
        assert!(out.starts_with("\x1b]1337;"));
        assert!(out.ends_with(":/9j/4AAQSkZJRg==\x07\n"));
    }
}

#[test]
fn multiplexer_detection() {
    assert!(is_multiplexer(Some("screen")));
    assert!(is_multiplexer(Some("screen.xterm-256color")));
    assert!(is_multiplexer(Some("tmux")));
    assert!(!is_multiplexer(Some("xterm")));
    assert!(!is_multiplexer(Some("scree")));
    assert!(!is_multiplexer(None));
}

#[test]
fn stdin_image_omits_name_and_origin_line() {
    let img = Image::from_stdin(Ok(vec![1, 2, 3])).unwrap();
    let mut opts = no_flags();
    opts.print_path = true;
    let out = encode(&img, &opts, None);
    assert_eq!(out, "\x1b]1337;File=inline=1;size=3;preserveAspectRatio=1:AQID\x07\n");
    assert!(!out.contains(";name="));
}

#[test]
fn print_path_echoes_origin_after_sequence() {
    let mut opts = no_flags();
    opts.print_path = true;
    let out = encode(&photo(), &opts, None);
    assert!(out.ends_with("==\x07\nphoto.png\n"));
}

#[test]
fn stretch_sets_aspect_flag_to_zero() {
    let mut opts = no_flags();
    opts.preserve_aspect_ratio = false;
    let out = encode(&photo(), &opts, None);
    assert!(out.contains(";preserveAspectRatio=0:"));
    assert!(!out.contains(";preserveAspectRatio=1"));
}

#[test]
fn all_fields_in_order() {
    let opts = DisplayOptions {
        width: Some("250px".to_string()),
        height: Some("50%".to_string()),
        preserve_aspect_ratio: true,
        file_type: Some("image/png".to_string()),
        print_path: false,
    };
    let img = Image { data: vec![0xfb, 0xff, 0xfe], filename: Some("x".to_string()), origin: None };
    let out = encode(&img, &opts, None);
    assert_eq!(
        out,
        "\x1b]1337;File=inline=1;size=3;name=eA==;width=250px;height=50%;preserveAspectRatio=1;type=image/png:+//+\x07\n"
    );
}

#[test]
fn name_uses_url_safe_alphabet_over_utf8() {
    let img = Image { data: vec![], filename: Some("\u{fc}.png".to_string()), origin: None };
    let out = encode(&img, &no_flags(), None);
    assert_eq!(out, "\x1b]1337;File=inline=1;size=0;name=w7wucG5n;preserveAspectRatio=1:\x07\n");
    let img = Image { data: vec![0xfb, 0xff, 0xfe], filename: None, origin: None };
    let out = encode(&img, &no_flags(), None);
    assert!(out.ends_with(":+//+\x07\n"));
}

#[test]
fn size_is_exact_byte_count() {
    for n in [0usize, 1, 9, 10, 99, 100, 1234] {
        let img = Image { data: vec![7; n], filename: None, origin: None };
        let out = encode(&img, &no_flags(), None);
        assert!(out.starts_with(&format!("\x1b]1337;File=inline=1;size={};", n)));
    }
}

#[test]
fn empty_image_encodes() {
    let img = Image { data: vec![], filename: None, origin: Some("o".to_string()) };
    let out = encode(&img, &no_flags(), None);
    assert_eq!(out, "\x1b]1337;File=inline=1;size=0;preserveAspectRatio=1:\x07\n");
}

#[test]
fn ordinary_images_are_encodable() {
    assert!(is_encodable(&photo()));
    assert!(is_encodable(&Image { data: vec![], filename: None, origin: None }));
}

#[test]
fn base64_round_trips() {
    for b in [vec![], vec![0u8], vec![0xfb, 0xff], JPEG_HEAD.to_vec(), (0..=255u8).collect()] {
        assert_eq!(BASE64_STANDARD.decode(BASE64_STANDARD.encode(&b)).unwrap(), b);
        assert_eq!(BASE64_URL_SAFE.decode(BASE64_URL_SAFE.encode(&b)).unwrap(), b);
    }
}
