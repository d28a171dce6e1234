use rust_shiori::bridge::{decode, encode, from_rmpv, to_rmpv};
use rust_shiori::dynamic::{Composite, DynamicValue};
use rust_shiori::float::widen_single;
use rust_shiori::notes::{Diagnostic, NoteKind};
use rust_shiori::value::{GenericInt, GenericValue};

fn text(s: &str) -> DynamicValue {
    DynamicValue::Text(s.as_bytes().to_vec())
}

fn binary(s: &str) -> GenericValue {
    GenericValue::Binary(s.as_bytes().to_vec())
}

fn whole(n: i64) -> GenericValue {
    GenericValue::Integer(GenericInt::from_i64(n))
}

fn table(pairs: Vec<(DynamicValue, DynamicValue)>) -> Composite {
    Composite { pairs, extension: false }
}

fn note(kind: NoteKind, path: &str) -> Diagnostic {
    Diagnostic { kind, path: path.to_string() }
}

#[test]
fn scalars_are_stored() {
    let mut notes = Vec::new();
    assert_eq!(encode(&DynamicValue::Nil, "<root>", &mut notes), Some(GenericValue::Nil));
    assert_eq!(encode(&DynamicValue::Boolean(true), "<root>", &mut notes), Some(GenericValue::Boolean(true)));
    assert_eq!(encode(&DynamicValue::Integer(-5), "<root>", &mut notes), Some(whole(-5)));
    assert_eq!(
        encode(&DynamicValue::Integer(i64::MIN), "<root>", &mut notes),
        Some(GenericValue::Integer(GenericInt::Signed(i64::MIN)))
    );
    assert_eq!(
        encode(&DynamicValue::Integer(i64::MAX), "<root>", &mut notes),
        Some(GenericValue::Integer(GenericInt::Unsigned(i64::MAX as u64)))
    );
    assert_eq!(
        encode(&DynamicValue::Float(2.5f64.to_bits()), "<root>", &mut notes),
        Some(GenericValue::Float64(2.5f64.to_bits()))
    );
    assert_eq!(encode(&text("x"), "<root>", &mut notes), Some(binary("x")));
    assert_eq!(
        encode(&DynamicValue::Text(vec![0xff, 0x00, 0x80]), "<root>", &mut notes),
        Some(GenericValue::Binary(vec![0xff, 0x00, 0x80]))
    );
    assert!(notes.is_empty());
}

#[test]
fn opaque_root_is_not_stored_and_reports_nothing() {
    let mut notes = Vec::new();
    assert_eq!(encode(&DynamicValue::Opaque, "<root>", &mut notes), None);
    assert!(notes.is_empty());
}

#[test]
fn composite_of_scalars_is_stored_as_mapping() {
    let mut notes = Vec::new();
    let value = table(vec![
        (text("a"), DynamicValue::Integer(1)),
        (text("b"), DynamicValue::Float(2.5f64.to_bits())),
        (text("c"), text("x")),
    ]);
    let stored = to_rmpv(&value, "<root>", &mut notes);
    assert_eq!(
        stored,
        GenericValue::Mapping(vec![
            (binary("a"), whole(1)),
            (binary("b"), GenericValue::Float64(2.5f64.to_bits())),
            (binary("c"), binary("x")),
        ])
    );
    assert!(notes.is_empty());
}

#[test]
fn mapping_with_array_is_restored() {
    let mut notes = Vec::new();
    let stored = vec![(binary("k"), GenericValue::Array(vec![whole(1), whole(2)]))];
    let restored = from_rmpv(&stored, "<root>", &mut notes);
    assert_eq!(
        restored,
        table(vec![(
            text("k"),
            DynamicValue::Composite(table(vec![
                (DynamicValue::Integer(0), DynamicValue::Integer(1)),
                (DynamicValue::Integer(1), DynamicValue::Integer(2)),
            ])),
        )])
    );
    assert!(notes.is_empty());
}

#[test]
fn one_opaque_value_among_siblings_is_dropped_alone() {
    let mut notes = Vec::new();
    let value = table(vec![
        (text("a"), DynamicValue::Integer(1)),
        (text("f"), DynamicValue::Opaque),
        (text("c"), DynamicValue::Boolean(false)),
        (DynamicValue::Integer(4), DynamicValue::Nil),
    ]);
    let stored = to_rmpv(&value, "<root>", &mut notes);
    assert_eq!(
        stored,
        GenericValue::Mapping(vec![
            (binary("a"), whole(1)),
            (binary("c"), GenericValue::Boolean(false)),
            (whole(4), GenericValue::Nil),
        ])
    );
    assert_eq!(notes, vec![note(NoteKind::ValueNotStored, "<root>.f")]);
}

#[test]
fn opaque_key_is_reported_at_the_composite() {
    let mut notes = Vec::new();
    let value = table(vec![
        (DynamicValue::Opaque, DynamicValue::Integer(1)),
        (DynamicValue::Opaque, DynamicValue::Opaque),
        (DynamicValue::Integer(2), DynamicValue::Integer(3)),
    ]);
    let stored = to_rmpv(&value, "state", &mut notes);
    assert_eq!(stored, GenericValue::Mapping(vec![(whole(2), whole(3))]));
    assert_eq!(
        notes,
        vec![note(NoteKind::KeyNotStored, "state"), note(NoteKind::KeyNotStored, "state")]
    );
}

#[test]
fn extension_is_reported_and_pairs_are_stored() {
    let mut notes = Vec::new();
    let value = Composite { pairs: vec![(text("a"), DynamicValue::Integer(1))], extension: true };
    let stored = to_rmpv(&value, "<root>", &mut notes);
    assert_eq!(stored, GenericValue::Mapping(vec![(binary("a"), whole(1))]));
    assert_eq!(notes, vec![note(NoteKind::ExtensionDropped, "<root>")]);
}

#[test]
fn paths_name_the_keys_on_the_way() {
    let mut notes = Vec::new();
    let inner = |extension: bool, pairs: Vec<(DynamicValue, DynamicValue)>| {
        DynamicValue::Composite(Composite { pairs, extension })
    };
    let value = table(vec![
        (text("name"), inner(true, vec![])),
        (DynamicValue::Integer(-12), inner(false, vec![(text("deep"), DynamicValue::Opaque)])),
        (DynamicValue::Boolean(true), inner(true, vec![])),
        (DynamicValue::Nil, inner(true, vec![])),
        (DynamicValue::Float(2.5f64.to_bits()), inner(true, vec![])),
        (inner(false, vec![]), inner(true, vec![])),
        (inner(true, vec![]), DynamicValue::Nil),
        (text("k"), inner(false, vec![(inner(true, vec![]), DynamicValue::Nil)])),
    ]);
    to_rmpv(&value, "<root>", &mut notes);
    let expected = vec![
        note(NoteKind::ExtensionDropped, "<root>.name"),
        note(NoteKind::ValueNotStored, "<root>[-12].deep"),
        note(NoteKind::ExtensionDropped, "<root>[true]"),
        note(NoteKind::ExtensionDropped, "<root>[nil]"),
        note(NoteKind::ExtensionDropped, "<root>[0x4004000000000000]"),
        note(NoteKind::ExtensionDropped, "<root>[table]"),
        note(NoteKind::ExtensionDropped, "<root>.<keyname table>"),
        note(NoteKind::ExtensionDropped, "<root>.k.<keyname table>"),
    ];
    assert_eq!(notes, expected);
}

#[test]
fn key_names_of_each_kind() {
    let keys = vec![
        (DynamicValue::Nil, "p.<keyname nil>"),
        (DynamicValue::Boolean(false), "p.<keyname false>"),
        (DynamicValue::Integer(i64::MIN), "p.<keyname -9223372036854775808>"),
        (DynamicValue::Integer(0), "p.<keyname 0>"),
        (DynamicValue::Integer(1050), "p.<keyname 1050>"),
        (DynamicValue::Float(0), "p.<keyname 0x0000000000000000>"),
        (text("\u{e9}t\u{e9}"), "p.<keyname \"\u{e9}t\u{e9}\">"),
        (DynamicValue::Text(vec![b'a', 0xff]), "p.<keyname \"a\u{fffd}\">"),
    ];
    for (key, expected) in keys {
        let key = DynamicValue::Composite(Composite {
            pairs: vec![(key, DynamicValue::Nil)],
            extension: false,
        });
        let mut notes = Vec::new();
        let stored = rust_shiori::notes::dynamic_key_path("p", match &key {
            DynamicValue::Composite(c) => &c.pairs[0].0,
            _ => unreachable!(),
        });
        assert_eq!(stored, expected);
        assert!(encode(&key, "p", &mut notes).is_some());
    }
}

#[test]
fn scalars_are_restored() {
    let mut notes = Vec::new();
    assert_eq!(decode(&GenericValue::Nil, "<root>", &mut notes), Some(DynamicValue::Nil));
    assert_eq!(decode(&GenericValue::Boolean(false), "<root>", &mut notes), Some(DynamicValue::Boolean(false)));
    assert_eq!(decode(&whole(-7), "<root>", &mut notes), Some(DynamicValue::Integer(-7)));
    assert_eq!(
        decode(&GenericValue::Integer(GenericInt::Unsigned(i64::MAX as u64)), "<root>", &mut notes),
        Some(DynamicValue::Integer(i64::MAX))
    );
    assert_eq!(
        decode(&GenericValue::Float64(1.25f64.to_bits()), "<root>", &mut notes),
        Some(DynamicValue::Float(1.25f64.to_bits()))
    );
    assert_eq!(
        decode(&GenericValue::Float32(1.25f32.to_bits()), "<root>", &mut notes),
        Some(DynamicValue::Float(1.25f64.to_bits()))
    );
    assert_eq!(decode(&binary("x"), "<root>", &mut notes), Some(text("x")));
    assert_eq!(decode(&GenericValue::Text(b"y".to_vec()), "<root>", &mut notes), Some(text("y")));
    assert!(notes.is_empty());
}

#[test]
fn integer_beyond_the_host_range_is_not_restored() {
    let mut notes = Vec::new();
    let big = GenericValue::Integer(GenericInt::Unsigned(i64::MAX as u64 + 1));
    assert_eq!(decode(&big, "<root>", &mut notes), None);
    assert_eq!(decode(&GenericValue::Integer(GenericInt::Unsigned(u64::MAX)), "<root>", &mut notes), None);
    assert_eq!(decode(&GenericValue::Extension(3, vec![1, 2]), "<root>", &mut notes), None);
    assert!(notes.is_empty());
    let stored = vec![
        (binary("ok"), whole(1)),
        (binary("big"), GenericValue::Integer(GenericInt::Unsigned(u64::MAX))),
        (GenericValue::Integer(GenericInt::Unsigned(u64::MAX)), whole(2)),
        (binary("ext"), GenericValue::Extension(1, vec![])),
    ];
    let restored = from_rmpv(&stored, "<root>", &mut notes);
    assert_eq!(restored, table(vec![(text("ok"), DynamicValue::Integer(1))]));
    assert_eq!(
        notes,
        vec![
            note(NoteKind::ValueNotRestored, "<root>.big"),
            note(NoteKind::KeyNotRestored, "<root>"),
            note(NoteKind::ValueNotRestored, "<root>.ext"),
        ]
    );
}

#[test]
fn array_elements_that_are_not_restored_leave_gaps() {
    let mut notes = Vec::new();
    let stored = GenericValue::Array(vec![
        whole(10),
        GenericValue::Extension(0, vec![]),
        GenericValue::Array(vec![GenericValue::Extension(0, vec![])]),
        whole(13),
    ]);
    let restored = decode(&stored, "list", &mut notes).unwrap();
    assert_eq!(
        restored,
        DynamicValue::Composite(table(vec![
            (DynamicValue::Integer(0), DynamicValue::Integer(10)),
            (DynamicValue::Integer(2), DynamicValue::Composite(table(vec![]))),
            (DynamicValue::Integer(3), DynamicValue::Integer(13)),
        ]))
    );
    assert_eq!(
        notes,
        vec![note(NoteKind::ValueNotRestored, "list[1]"), note(NoteKind::ValueNotRestored, "list[2][0]")]
    );
}

#[test]
fn stored_keys_of_each_kind_are_named() {
    let keys = vec![
        (GenericValue::Nil, "p[nil]"),
        (GenericValue::Boolean(true), "p[true]"),
        (GenericValue::Integer(GenericInt::Unsigned(u64::MAX)), "p[18446744073709551615]"),
        (whole(-3), "p[-3]"),
        (GenericValue::Float32(1.5f32.to_bits()), "p[0x3fc00000]"),
        (GenericValue::Float64(1.5f64.to_bits()), "p[0x3ff8000000000000]"),
        (binary("name"), "p.name"),
        (GenericValue::Text(b"title".to_vec()), "p.title"),
        (GenericValue::Array(vec![]), "p[table]"),
        (GenericValue::Mapping(vec![]), "p[table]"),
        (GenericValue::Extension(0, vec![]), "p<error>"),
    ];
    for (key, expected) in keys {
        assert_eq!(rust_shiori::notes::generic_child_path("p", &key), expected);
    }
    assert_eq!(rust_shiori::notes::element_path("p", 0), "p[0]");
    assert_eq!(rust_shiori::notes::element_path("p", 120), "p[120]");
    assert_eq!(
        rust_shiori::notes::generic_key_path("p", &binary("name")),
        "p.<keyname \"name\">"
    );
    assert_eq!(rust_shiori::notes::dynamic_child_path("p", &DynamicValue::Opaque), "p<error>");
}

#[test]
fn repeated_keys_of_a_mapping_are_all_restored() {
    let mut notes = Vec::new();
    let stored = vec![(binary("a"), whole(1)), (binary("a"), whole(2))];
    let restored = from_rmpv(&stored, "<root>", &mut notes);
    assert_eq!(
        restored,
        table(vec![(text("a"), DynamicValue::Integer(1)), (text("a"), DynamicValue::Integer(2))])
    );
}

fn sample() -> Composite {
    table(vec![
        (text("nil"), DynamicValue::Nil),
        (text("flag"), DynamicValue::Boolean(true)),
        (text("count"), DynamicValue::Integer(-42)),
        (text("ratio"), DynamicValue::Float(0.1f64.to_bits())),
        (text("name"), text("sakura")),
        (DynamicValue::Integer(7), DynamicValue::Boolean(false)),
        (text("nested"), DynamicValue::Composite(table(vec![(text("inner"), DynamicValue::Integer(1))]))),
        (
            text("list"),
            DynamicValue::Composite(table(vec![
                (DynamicValue::Integer(0), text("a")),
                (DynamicValue::Integer(1), text("b")),
            ])),
        ),
    ])
}

#[test]
fn plain_composite_comes_back_from_its_stored_form() {
    let mut notes = Vec::new();
    let stored = encode(&DynamicValue::Composite(sample()), "<root>", &mut notes).unwrap();
    let restored = decode(&stored, "<root>", &mut notes).unwrap();
    assert_eq!(restored, DynamicValue::Composite(sample()));
    assert!(notes.is_empty());
}

#[test]
fn widening_agrees_with_the_machine() {
    let mut patterns: Vec<u32> = vec![
        0x0000_0000, 0x8000_0000, 0x0000_0001, 0x8000_0001, 0x0000_0002, 0x0000_0003,
        0x007f_ffff, 0x0040_0000, 0x0080_0000, 0x0080_0001, 0x3f80_0000, 0xbf80_0000,
        0x3fc0_0000, 0x4049_0fdb, 0x7f7f_ffff, 0xff7f_ffff, 0x7f80_0000, 0xff80_0000,
        0x0012_3456, 0x8000_1000,
    ];
    let mut state: u32 = 0x9e37_79b9;
    for _ in 0..20000 {
        state ^= state << 13;
        state ^= state >> 17;
        state ^= state << 5;
        patterns.push(state);
    }
    for k in 0..23 {
        patterns.push(1u32 << k);
        patterns.push((1u32 << k) | 1);
        patterns.push(0x8000_0000 | (1u32 << k));
    }
    for bits in patterns {
        let single = f32::from_bits(bits);
        if single.is_nan() {
            continue;
        }
        assert_eq!(widen_single(bits), (single as f64).to_bits(), "on {:#010x}", bits);
    }
}

#[test]
fn widening_keeps_a_nan_a_nan() {
    for bits in [0x7fc0_0000u32, 0x7f80_0001, 0xffc0_0000, 0x7fff_ffff, 0xff80_0001, 0x7fa0_0000] {
        let wide = f64::from_bits(widen_single(bits));
        assert!(wide.is_nan());
        assert_eq!(wide.is_sign_negative(), f32::from_bits(bits).is_sign_negative());
    }
    assert_eq!(widen_single(0x7fc0_0000), 0x7ff8_0000_0000_0000);
    assert_eq!(widen_single(0x7f80_0001), 0x7ff8_0000_2000_0000);
}

#[test]
fn diagnostics_read_as_sentences() {
    let cases = vec![
        (NoteKind::ExtensionDropped, "The value p has an extension, which cannot be stored and will not be persisted."),
        (NoteKind::KeyNotStored, "A key of p cannot be stored and will not be persisted."),
        (NoteKind::ValueNotStored, "The value of p cannot be stored and will not be persisted."),
        (NoteKind::KeyNotRestored, "A key of p is not a valid host value and will be ignored."),
        (NoteKind::ValueNotRestored, "The value of p is not a valid host value and will be ignored."),
        (NoteKind::NothingLoaded, "No stored state could be read from p; starting with empty state."),
    ];
    for (kind, expected) in cases {
        assert_eq!(note(kind, "p").message(), expected);
    }
}
