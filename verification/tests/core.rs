//! Tests for the normalizer building blocks: expiry normalization, action
//! grouping, hint conversion, and the raw-image decoder.

use rnd::hints::{
    convert_hints, convert_value, FieldValue, HintValue, ImageData, ProtocolError, WireValue,
};
use rnd::image::{rbg_to_rgba, icon_for, IconChoice, Image, ImageDecodeError};
use rnd::notification::{group_actions, normalize, normalize_expiry, Expiry, Notification};

fn strings(items: &[&str]) -> Vec<String> {
    items.iter().map(|s| s.to_string()).collect()
}

fn lookup<'a>(table: &'a [(String, String)], key: &str) -> Option<&'a str> {
    table
        .iter()
        .find(|(k, _)| k == key)
        .map(|(_, v)| v.as_str())
}

fn plain_note(id: u32) -> Notification {
    Notification {
        id,
        app_name: "app".to_string(),
        replaces_id: 0,
        app_icon: String::new(),
        summary: "summary".to_string(),
        body: String::new(),
        actions: Vec::new(),
        hints: Vec::new(),
        start_time: 0,
        expire_timeout: Expiry::Never,
    }
}

fn image_tuple_fields(
    width: i32,
    height: i32,
    has_alpha: bool,
    channels: i32,
    pixels: Vec<u8>,
) -> Vec<FieldValue> {
    vec![
        FieldValue::I32(width),
        FieldValue::I32(height),
        FieldValue::I32(width * channels),
        FieldValue::Bool(has_alpha),
        FieldValue::I32(8),
        FieldValue::I32(channels),
        FieldValue::Bytes(pixels),
    ]
}

#[test]
fn expiry_default_is_five_seconds() {
    assert_eq!(normalize_expiry(-1), Expiry::Milliseconds(5000));
}

#[test]
fn expiry_zero_means_never() {
    assert_eq!(normalize_expiry(0), Expiry::Never);
}

#[test]
fn expiry_positive_is_taken_as_is() {
    assert_eq!(normalize_expiry(1), Expiry::Milliseconds(1));
    assert_eq!(normalize_expiry(200), Expiry::Milliseconds(200));
    assert_eq!(normalize_expiry(i32::MAX), Expiry::Milliseconds(i32::MAX as u64));
}

#[test]
fn expiry_below_minus_one_is_clamped_to_default() {
    assert_eq!(normalize_expiry(-2), Expiry::Milliseconds(5000));
    assert_eq!(normalize_expiry(i32::MIN), Expiry::Milliseconds(5000));
}

#[test]
fn actions_group_into_pairs() {
    let grouped = group_actions(&strings(&["a", "Accept", "b", "Ignore"]));
    assert_eq!(grouped.len(), 2);
    assert_eq!(lookup(&grouped, "a"), Some("Accept"));
    assert_eq!(lookup(&grouped, "b"), Some("Ignore"));
}

#[test]
fn odd_action_list_drops_trailing_token() {
    let grouped = group_actions(&strings(&["a", "Accept", "stray"]));
    assert_eq!(grouped.len(), 1);
    assert_eq!(lookup(&grouped, "a"), Some("Accept"));
    assert_eq!(lookup(&grouped, "stray"), None);
}

#[test]
fn later_action_pair_overrides_earlier_key() {
    let grouped = group_actions(&strings(&["a", "Accept", "a", "Again"]));
    assert_eq!(grouped.len(), 1);
    assert_eq!(lookup(&grouped, "a"), Some("Again"));
}

#[test]
fn empty_action_list_groups_to_nothing() {
    let grouped = group_actions(&Vec::new());
    assert!(grouped.is_empty());
}

#[test]
fn scalar_hints_convert_to_owned_kinds() {
    assert_eq!(
        convert_value(WireValue::Str("hi".to_string())),
        Ok(HintValue::Text("hi".to_string()))
    );
    assert_eq!(convert_value(WireValue::Bool(true)), Ok(HintValue::Boolean(true)));
    assert_eq!(convert_value(WireValue::Byte(2)), Ok(HintValue::Int(2)));
    assert_eq!(convert_value(WireValue::I32(-7)), Ok(HintValue::Int(-7)));
    assert_eq!(convert_value(WireValue::U32(9)), Ok(HintValue::Int(9)));
    assert_eq!(convert_value(WireValue::I64(-1)), Ok(HintValue::Int(-1)));
    assert_eq!(convert_value(WireValue::U64(3)), Ok(HintValue::Int(3)));
    assert_eq!(
        convert_value(WireValue::Bytes(vec![1, 2])),
        Ok(HintValue::Bytes(vec![1, 2]))
    );
}

#[test]
fn oversized_u64_hint_is_preserved_opaquely() {
    let big = u64::MAX;
    assert_eq!(
        convert_value(WireValue::U64(big)),
        Ok(HintValue::Other(WireValue::U64(big)))
    );
}

#[test]
fn fd_hint_cannot_be_converted() {
    assert_eq!(convert_value(WireValue::Fd(4)), Err(ProtocolError::HintNotConvertible));
}

#[test]
fn image_shaped_structure_becomes_image_hint() {
    let fields = image_tuple_fields(1, 2, false, 3, vec![9, 9, 9, 9, 9, 9]);
    match convert_value(WireValue::Structure(fields)) {
        Ok(HintValue::Image(data)) => {
            assert_eq!(data.width, 1);
            assert_eq!(data.height, 2);
            assert_eq!(data.rowstride, 3);
            assert!(!data.has_alpha);
            assert_eq!(data.bits_per_sample, 8);
            assert_eq!(data.channels, 3);
            assert_eq!(data.pixels, vec![9, 9, 9, 9, 9, 9]);
        },
        other => panic!("expected an image hint, got {:?}", other),
    }
}

#[test]
fn other_structures_are_preserved_opaquely() {
    let fields = vec![FieldValue::Bool(true), FieldValue::I32(3)];
    assert_eq!(
        convert_value(WireValue::Structure(fields.clone())),
        Ok(HintValue::Other(WireValue::Structure(fields)))
    );
}

#[test]
fn hint_table_conversion_fails_on_any_fd() {
    let hints = vec![
        ("urgency".to_string(), WireValue::Byte(2)),
        ("stream".to_string(), WireValue::Fd(3)),
    ];
    assert_eq!(convert_hints(&hints), Err(ProtocolError::HintNotConvertible));
}

#[test]
fn hint_table_keeps_last_binding_of_a_key() {
    let hints = vec![
        ("urgency".to_string(), WireValue::Byte(1)),
        ("urgency".to_string(), WireValue::Byte(2)),
    ];
    let converted = convert_hints(&hints).unwrap();
    assert_eq!(converted.len(), 1);
    assert_eq!(converted[0], ("urgency".to_string(), HintValue::Int(2)));
}

#[test]
fn rgb_gains_an_alpha_byte_per_pixel() {
    let w = 3usize;
    let h = 2usize;
    let rgb: Vec<u8> = (0..(w * h * 3) as u8).collect();
    let rgba = rbg_to_rgba(rgb.clone());
    assert_eq!(rgba.len(), w * h * 4);
    for p in 0..w * h {
        assert_eq!(rgba[4 * p], rgb[3 * p]);
        assert_eq!(rgba[4 * p + 1], rgb[3 * p + 1]);
        assert_eq!(rgba[4 * p + 2], rgb[3 * p + 2]);
        assert_eq!(rgba[4 * p + 3], 255);
    }
}

#[test]
fn decoding_rgb_tuple_expands_to_rgba() {
    let pixels: Vec<u8> = (0..12).collect();
    let hint = HintValue::Image(ImageData {
        width: 2,
        height: 2,
        rowstride: 6,
        has_alpha: false,
        bits_per_sample: 8,
        channels: 3,
        pixels,
    });
    let img = Image::try_from_hint(&hint).unwrap();
    assert_eq!(img.width, 2);
    assert_eq!(img.height, 2);
    assert_eq!(img.channels, 3);
    assert_eq!(img.pixels.len(), 2 * 2 * 4);
    for p in 0..4 {
        assert_eq!(img.pixels[4 * p + 3], 255);
    }
}

#[test]
fn decoding_rgba_tuple_keeps_the_buffer() {
    let pixels: Vec<u8> = (0..16).collect();
    let hint = HintValue::Image(ImageData {
        width: 2,
        height: 2,
        rowstride: 8,
        has_alpha: true,
        bits_per_sample: 8,
        channels: 4,
        pixels: pixels.clone(),
    });
    let img = Image::try_from_hint(&hint).unwrap();
    assert_eq!(img.pixels, pixels);
}

#[test]
fn decoding_fails_on_wrong_buffer_length() {
    let hint = HintValue::Image(ImageData {
        width: 2,
        height: 2,
        rowstride: 6,
        has_alpha: false,
        bits_per_sample: 8,
        channels: 3,
        pixels: vec![0; 11],
    });
    assert_eq!(Image::try_from_hint(&hint), Err(ImageDecodeError::Inconsistent));
}

#[test]
fn decoding_fails_on_alpha_flag_channel_mismatch() {
    let hint = HintValue::Image(ImageData {
        width: 1,
        height: 1,
        rowstride: 3,
        has_alpha: true,
        bits_per_sample: 8,
        channels: 3,
        pixels: vec![0, 0, 0],
    });
    assert_eq!(Image::try_from_hint(&hint), Err(ImageDecodeError::Inconsistent));
}

#[test]
fn decoding_fails_on_negative_dimensions() {
    let hint = HintValue::Image(ImageData {
        width: -1,
        height: 1,
        rowstride: 3,
        has_alpha: false,
        bits_per_sample: 8,
        channels: 3,
        pixels: Vec::new(),
    });
    assert_eq!(Image::try_from_hint(&hint), Err(ImageDecodeError::Inconsistent));
}

#[test]
fn decoding_fails_on_non_image_hint() {
    let hint = HintValue::Int(4);
    assert_eq!(Image::try_from_hint(&hint), Err(ImageDecodeError::WrongShape));
}

#[test]
fn icon_prefers_embedded_image_data() {
    let mut n = plain_note(1);
    n.app_icon = "firefox".to_string();
    n.hints = vec![(
        "image-data".to_string(),
        HintValue::Image(ImageData {
            width: 1,
            height: 1,
            rowstride: 3,
            has_alpha: false,
            bits_per_sample: 8,
            channels: 3,
            pixels: vec![1, 2, 3],
        }),
    )];
    match icon_for(&n) {
        IconChoice::Embedded(img) => assert_eq!(img.pixels, vec![1, 2, 3, 255]),
        other => panic!("expected an embedded icon, got {:?}", other),
    }
}

#[test]
fn icon_falls_back_to_icon_data_hint() {
    let mut n = plain_note(1);
    n.hints = vec![(
        "icon_data".to_string(),
        HintValue::Image(ImageData {
            width: 1,
            height: 1,
            rowstride: 4,
            has_alpha: true,
            bits_per_sample: 8,
            channels: 4,
            pixels: vec![1, 2, 3, 4],
        }),
    )];
    match icon_for(&n) {
        IconChoice::Embedded(img) => assert_eq!(img.pixels, vec![1, 2, 3, 4]),
        other => panic!("expected an embedded icon, got {:?}", other),
    }
}

#[test]
fn icon_uses_named_app_icon_without_image_hints() {
    let mut n = plain_note(1);
    n.app_icon = "firefox".to_string();
    assert_eq!(icon_for(&n), IconChoice::Named("firefox".to_string()));
}

#[test]
fn undecodable_image_hint_shows_no_icon() {
    let mut n = plain_note(1);
    n.app_icon = "firefox".to_string();
    n.hints = vec![("image-data".to_string(), HintValue::Int(3))];
    assert_eq!(icon_for(&n), IconChoice::NoIcon);
}

#[test]
fn no_icon_at_all() {
    let n = plain_note(1);
    assert_eq!(icon_for(&n), IconChoice::NoIcon);
}

#[test]
fn normalize_builds_the_canonical_record() {
    let actions = strings(&["default", "Open"]);
    let hints = vec![("urgency".to_string(), WireValue::Byte(2))];
    let n = normalize(
        7,
        "mailer".to_string(),
        0,
        "mail-icon".to_string(),
        "new mail".to_string(),
        "you have mail".to_string(),
        &actions,
        &hints,
        -1,
        123,
    )
    .unwrap();
    assert_eq!(n.id, 7);
    assert_eq!(n.app_name, "mailer");
    assert_eq!(n.app_icon, "mail-icon");
    assert_eq!(n.summary, "new mail");
    assert_eq!(n.body, "you have mail");
    assert_eq!(n.start_time, 123);
    assert_eq!(n.expire_timeout, Expiry::Milliseconds(5000));
    assert_eq!(n.actions, vec![("default".to_string(), "Open".to_string())]);
    assert_eq!(n.hints, vec![("urgency".to_string(), HintValue::Int(2))]);
}

#[test]
fn normalize_rejects_unconvertible_hints() {
    let out = normalize(
        7,
        "app".to_string(),
        0,
        String::new(),
        "s".to_string(),
        String::new(),
        &Vec::new(),
        &vec![("stream".to_string(), WireValue::Fd(5))],
        0,
        0,
    );
    assert_eq!(out.err(), Some(ProtocolError::HintNotConvertible));
}
