use ordered_float::OrderedFloat;
use shape_plan_cache::variation::{canonical_bits, CANONICAL_NAN, NEGATIVE_ZERO};
use shape_plan_cache::{Direction, Font, ShapePlanKey, TextRun, Variation};
use std::collections::hash_map::DefaultHasher;
use std::hash::{Hash, Hasher};

/// The bytes of the smallest font that the engine accepts: a header and the
/// three tables it cannot do without.
fn smallest_font() -> Vec<u8> {
    let mut head = vec![0u8; 54];
    head[18..20].copy_from_slice(&1000u16.to_be_bytes());
    let hhea = vec![0u8; 36];
    let mut maxp = vec![0u8; 6];
    maxp[0..4].copy_from_slice(&0x0000_5000u32.to_be_bytes());
    maxp[4..6].copy_from_slice(&1u16.to_be_bytes());

    let tables: [(&[u8; 4], &Vec<u8>); 3] = [(b"head", &head), (b"hhea", &hhea), (b"maxp", &maxp)];
    let mut font = Vec::new();
    font.extend_from_slice(&0x0001_0000u32.to_be_bytes());
    font.extend_from_slice(&3u16.to_be_bytes());
    font.extend_from_slice(&[0u8; 6]);
    let mut offset = 12 + 16 * tables.len() as u32;
    for (tag, data) in tables.iter() {
        font.extend_from_slice(&tag[..]);
        font.extend_from_slice(&0u32.to_be_bytes());
        font.extend_from_slice(&offset.to_be_bytes());
        font.extend_from_slice(&(data.len() as u32).to_be_bytes());
        offset += data.len() as u32;
    }
    for (_, data) in tables.iter() {
        font.extend_from_slice(data);
    }
    font
}

fn tag(bytes: &[u8; 4]) -> u32 {
    u32::from_be_bytes(*bytes)
}

fn font_with<'a>(data: &'a [u8], id: u64, axes: Vec<Variation>) -> Font<'a> {
    let face = rustybuzz::Face::from_slice(data, 0).expect("the font parses");
    Font::new(id, face, axes)
}

fn latin_run(text: &str, language: Option<&str>) -> TextRun {
    TextRun::new(
        text.to_string(),
        Direction::LeftToRight,
        tag(b"Latn"),
        language.map(|l| l.to_string()),
    )
}

/// A hasher that keeps what it is given.
struct Recorder(Vec<u8>);

impl Hasher for Recorder {
    fn finish(&self) -> u64 {
        0
    }

    fn write(&mut self, bytes: &[u8]) {
        self.0.extend_from_slice(bytes);
    }
}

fn sample_values() -> Vec<f32> {
    vec![
        0.0,
        -0.0,
        1.0,
        -1.0,
        400.0,
        400.5,
        f32::MIN_POSITIVE,
        f32::from_bits(1),
        f32::from_bits(0x8000_0001),
        f32::MAX,
        f32::MIN,
        f32::INFINITY,
        f32::NEG_INFINITY,
        f32::NAN,
        -f32::NAN,
        f32::from_bits(0x7f80_0001),
        f32::from_bits(0xffff_ffff),
        f32::from_bits(0x7fc0_0000),
    ]
}

#[test]
fn canonical_bits_of_ordinary_numbers_are_their_bits() {
    assert_eq!(canonical_bits(0x3f80_0000), 0x3f80_0000);
    assert_eq!(canonical_bits(0xbf80_0000), 0xbf80_0000);
    assert_eq!(canonical_bits(400.0f32.to_bits()), 0x43c8_0000);
    assert_eq!(canonical_bits(1), 1);
    assert_eq!(canonical_bits(0x8000_0001), 0x8000_0001);
    assert_eq!(canonical_bits(0x7f80_0000), 0x7f80_0000);
    assert_eq!(canonical_bits(0xff80_0000), 0xff80_0000);
}

#[test]
fn canonical_bits_collapse_the_zeros() {
    assert_eq!(canonical_bits(0), 0);
    assert_eq!(canonical_bits(NEGATIVE_ZERO), 0);
    assert_eq!(canonical_bits((-0.0f32).to_bits()), canonical_bits(0.0f32.to_bits()));
}

#[test]
fn canonical_bits_collapse_every_nan() {
    assert_eq!(CANONICAL_NAN, 0x7fc0_0000);
    assert_eq!(canonical_bits(f32::NAN.to_bits()), CANONICAL_NAN);
    assert_eq!(canonical_bits((-f32::NAN).to_bits()), CANONICAL_NAN);
    assert_eq!(canonical_bits(0x7f80_0001), CANONICAL_NAN);
    assert_eq!(canonical_bits(0xff80_0001), CANONICAL_NAN);
    assert_eq!(canonical_bits(0x7fff_ffff), CANONICAL_NAN);
    assert_eq!(canonical_bits(0xffff_ffff), CANONICAL_NAN);
}

#[test]
fn canonical_bits_are_what_the_total_order_adapter_hashes() {
    for value in sample_values() {
        let mut recorder = Recorder(Vec::new());
        OrderedFloat(value).hash(&mut recorder);
        assert_eq!(
            recorder.0,
            canonical_bits(value.to_bits()).to_ne_bytes().to_vec(),
            "value with bits {:#010x}",
            value.to_bits()
        );
    }
}

#[test]
fn canonical_bits_agree_exactly_when_the_total_order_adapter_says_equal() {
    for a in sample_values() {
        for b in sample_values() {
            assert_eq!(
                canonical_bits(a.to_bits()) == canonical_bits(b.to_bits()),
                OrderedFloat(a) == OrderedFloat(b),
                "values with bits {:#010x} and {:#010x}",
                a.to_bits(),
                b.to_bits()
            );
        }
    }
}

#[test]
fn key_of_a_font_without_axes_is_the_digest_of_the_head_writes() {
    let data = smallest_font();
    let font = font_with(&data, 1, vec![]);
    let run = latin_run("hello", Some("en"));

    let mut hasher = DefaultHasher::new();
    hasher.write(&1u64.to_le_bytes());
    hasher.write(&[1u8]);
    hasher.write(&tag(b"Latn").to_le_bytes());
    hasher.write(&[1u8]);
    hasher.write(&2u64.to_le_bytes());
    hasher.write(b"en");

    assert_eq!(ShapePlanKey::new(&font, &run).shape_plan_hash, hasher.finish());
}

#[test]
fn key_of_a_run_without_language_writes_one_byte_for_it() {
    let data = smallest_font();
    let font = font_with(&data, 0x0102_0304_0506_0708, vec![]);
    let run = TextRun::new(String::new(), Direction::BottomToTop, tag(b"Hani"), None);

    let mut hasher = DefaultHasher::new();
    hasher.write(&[8u8, 7, 6, 5, 4, 3, 2, 1]);
    hasher.write(&[4u8]);
    hasher.write(&[b'i', b'n', b'a', b'H']);
    hasher.write(&[0u8]);

    assert_eq!(ShapePlanKey::new(&font, &run).shape_plan_hash, hasher.finish());
}

#[test]
fn key_of_a_font_with_axes_writes_tag_and_canonical_value_of_each() {
    let data = smallest_font();
    let axes = vec![
        Variation::new(tag(b"wght"), 400.0f32.to_bits()),
        Variation::new(tag(b"wdth"), (-0.0f32).to_bits()),
        Variation::new(tag(b"slnt"), 0xffc0_1234),
    ];
    let font = font_with(&data, 9, axes);
    let run = TextRun::new("x".to_string(), Direction::RightToLeft, tag(b"Arab"), Some("ar".to_string()));

    let mut hasher = DefaultHasher::new();
    hasher.write(&9u64.to_le_bytes());
    hasher.write(&[2u8]);
    hasher.write(&tag(b"Arab").to_le_bytes());
    hasher.write(&[1u8]);
    hasher.write(&2u64.to_le_bytes());
    hasher.write(b"ar");
    hasher.write(&tag(b"wght").to_le_bytes());
    hasher.write(&0x43c8_0000u32.to_le_bytes());
    hasher.write(&tag(b"wdth").to_le_bytes());
    hasher.write(&0u32.to_le_bytes());
    hasher.write(&tag(b"slnt").to_le_bytes());
    hasher.write(&0x7fc0_0000u32.to_le_bytes());

    assert_eq!(ShapePlanKey::new(&font, &run).shape_plan_hash, hasher.finish());
}

#[test]
fn key_is_the_same_on_every_call() {
    let data = smallest_font();
    let font = font_with(&data, 3, vec![Variation::new(tag(b"wght"), 700.0f32.to_bits())]);
    let run = latin_run("again", Some("de"));
    assert_eq!(ShapePlanKey::new(&font, &run), ShapePlanKey::new(&font, &run));
}

#[test]
fn key_ignores_the_text_of_the_run() {
    let data = smallest_font();
    let font = font_with(&data, 1, vec![]);
    let one = latin_run("one text", Some("en"));
    let other = latin_run("quite another text", Some("en"));
    assert_eq!(ShapePlanKey::new(&font, &one), ShapePlanKey::new(&font, &other));
}

#[test]
fn key_tells_every_direction_apart() {
    let data = smallest_font();
    let font = font_with(&data, 1, vec![]);
    let directions = [
        Direction::LeftToRight,
        Direction::RightToLeft,
        Direction::TopToBottom,
        Direction::BottomToTop,
    ];
    let keys: Vec<ShapePlanKey> = directions
        .iter()
        .map(|d| ShapePlanKey::new(&font, &TextRun::new(String::new(), *d, tag(b"Latn"), None)))
        .collect();
    for i in 0..keys.len() {
        for j in 0..keys.len() {
            assert_eq!(keys[i] == keys[j], i == j);
        }
    }
    assert_eq!(Direction::LeftToRight.code(), 1);
    assert_eq!(Direction::RightToLeft.code(), 2);
    assert_eq!(Direction::TopToBottom.code(), 3);
    assert_eq!(Direction::BottomToTop.code(), 4);
}

#[test]
fn key_tells_script_language_and_identity_apart() {
    let data = smallest_font();
    let font = font_with(&data, 1, vec![]);
    let other_font = font_with(&data, 2, vec![]);
    let base = ShapePlanKey::new(&font, &latin_run("t", Some("en")));

    assert_ne!(base, ShapePlanKey::new(&other_font, &latin_run("t", Some("en"))));
    assert_ne!(base, ShapePlanKey::new(&font, &latin_run("t", Some("fr"))));
    assert_ne!(base, ShapePlanKey::new(&font, &latin_run("t", None)));
    assert_ne!(base, ShapePlanKey::new(&font, &latin_run("t", Some(""))));
    assert_ne!(
        base,
        ShapePlanKey::new(
            &font,
            &TextRun::new("t".to_string(), Direction::LeftToRight, tag(b"Cyrl"), Some("en".to_string()))
        )
    );
}

#[test]
fn key_changes_with_a_single_axis_value() {
    let data = smallest_font();
    let run = latin_run("t", Some("en"));
    let regular = font_with(
        &data,
        1,
        vec![
            Variation::new(tag(b"wght"), 400.0f32.to_bits()),
            Variation::new(tag(b"wdth"), 100.0f32.to_bits()),
        ],
    );
    let bold = font_with(
        &data,
        1,
        vec![
            Variation::new(tag(b"wght"), 700.0f32.to_bits()),
            Variation::new(tag(b"wdth"), 100.0f32.to_bits()),
        ],
    );
    let narrow = font_with(
        &data,
        1,
        vec![
            Variation::new(tag(b"wght"), 400.0f32.to_bits()),
            Variation::new(tag(b"wdth"), 75.0f32.to_bits()),
        ],
    );
    let regular_key = ShapePlanKey::new(&regular, &run);
    assert_ne!(regular_key, ShapePlanKey::new(&bold, &run));
    assert_ne!(regular_key, ShapePlanKey::new(&narrow, &run));
    assert_ne!(ShapePlanKey::new(&bold, &run), ShapePlanKey::new(&narrow, &run));
}

#[test]
fn key_changes_with_the_axis_tag_and_the_axis_count() {
    let data = smallest_font();
    let run = latin_run("t", Some("en"));
    let none = font_with(&data, 1, vec![]);
    let weight = font_with(&data, 1, vec![Variation::new(tag(b"wght"), 400.0f32.to_bits())]);
    let width = font_with(&data, 1, vec![Variation::new(tag(b"wdth"), 400.0f32.to_bits())]);
    let twice = font_with(
        &data,
        1,
        vec![
            Variation::new(tag(b"wght"), 400.0f32.to_bits()),
            Variation::new(tag(b"wght"), 400.0f32.to_bits()),
        ],
    );
    let weight_key = ShapePlanKey::new(&weight, &run);
    assert_ne!(weight_key, ShapePlanKey::new(&none, &run));
    assert_ne!(weight_key, ShapePlanKey::new(&width, &run));
    assert_ne!(weight_key, ShapePlanKey::new(&twice, &run));
}

#[test]
fn key_depends_on_the_order_of_the_axes() {
    let data = smallest_font();
    let run = latin_run("t", Some("en"));
    let weight = Variation::new(tag(b"wght"), 400.0f32.to_bits());
    let width = Variation::new(tag(b"wdth"), 100.0f32.to_bits());
    let one_way = font_with(&data, 1, vec![weight, width]);
    let other_way = font_with(&data, 1, vec![width, weight]);
    assert_ne!(ShapePlanKey::new(&one_way, &run), ShapePlanKey::new(&other_way, &run));
}

#[test]
fn font_lists_its_axes_in_one_order() {
    let data = smallest_font();
    let weight = Variation::new(tag(b"wght"), 400.0f32.to_bits());
    let width = Variation::new(tag(b"wdth"), 100.0f32.to_bits());
    let font = font_with(&data, 5, vec![weight, width]);
    assert_eq!(font.id(), 5);
    assert_eq!(font.variations(), &vec![weight, width]);
    assert_eq!(font.variations(), font.variations());
    assert_eq!(font.variations()[0].tag, tag(b"wght"));
    assert_eq!(font.variations()[1].value, 100.0f32.to_bits());
    assert_eq!(font.rustybuzz().units_per_em(), 1000);
}

#[test]
fn key_takes_positive_and_negative_zero_for_one_value() {
    let data = smallest_font();
    let run = latin_run("t", Some("en"));
    let positive = font_with(&data, 1, vec![Variation::new(tag(b"slnt"), 0.0f32.to_bits())]);
    let negative = font_with(&data, 1, vec![Variation::new(tag(b"slnt"), (-0.0f32).to_bits())]);
    assert_ne!(0.0f32.to_bits(), (-0.0f32).to_bits());
    assert_eq!(ShapePlanKey::new(&positive, &run), ShapePlanKey::new(&negative, &run));
}

#[test]
fn key_takes_every_nan_for_one_value() {
    let data = smallest_font();
    let run = latin_run("t", Some("en"));
    let nan = font_with(&data, 1, vec![Variation::new(tag(b"wght"), f32::NAN.to_bits())]);
    let key = ShapePlanKey::new(&nan, &run);
    assert_eq!(key, ShapePlanKey::new(&nan, &run));

    let other_nan = font_with(&data, 1, vec![Variation::new(tag(b"wght"), 0xffc0_0001)]);
    assert_eq!(key, ShapePlanKey::new(&other_nan, &run));

    let infinite = font_with(&data, 1, vec![Variation::new(tag(b"wght"), f32::INFINITY.to_bits())]);
    assert_ne!(key, ShapePlanKey::new(&infinite, &run));
}

#[test]
fn run_tells_whether_its_language_is_ascii() {
    assert!(latin_run("t", None).has_plain_language());
    assert!(latin_run("t", Some("")).has_plain_language());
    assert!(latin_run("t", Some("en")).has_plain_language());
    assert!(latin_run("t", Some("zh-Hant-HK")).has_plain_language());
    assert!(latin_run("t", Some("x-hbot4142")).has_plain_language());
    assert!(latin_run("t", Some("\u{7f}")).has_plain_language());

    assert!(!latin_run("t", Some("a-\u{e9}")).has_plain_language());
    assert!(!latin_run("t", Some("\u{80}")).has_plain_language());
    assert!(!latin_run("t", Some("en\u{2013}US")).has_plain_language());
    assert!(!latin_run("t", Some("\u{65e5}\u{672c}\u{8a9e}")).has_plain_language());
}

#[test]
fn run_with_text_outside_ascii_still_has_a_plain_language() {
    let run = latin_run("caf\u{e9} \u{65e5}\u{672c}", Some("fr"));
    assert!(run.has_plain_language());
}

#[test]
fn key_is_derived_for_any_language_text() {
    let data = smallest_font();
    let font = font_with(&data, 1, vec![]);
    let odd = latin_run("t", Some("a-\u{e9}"));

    let mut hasher = DefaultHasher::new();
    hasher.write(&1u64.to_le_bytes());
    hasher.write(&[1u8]);
    hasher.write(&tag(b"Latn").to_le_bytes());
    hasher.write(&[1u8]);
    hasher.write(&4u64.to_le_bytes());
    hasher.write(&[b'a', b'-', 0xc3, 0xa9]);

    assert_eq!(ShapePlanKey::new(&font, &odd).shape_plan_hash, hasher.finish());
    assert_ne!(ShapePlanKey::new(&font, &odd), ShapePlanKey::new(&font, &latin_run("t", Some("a-e"))));
}
