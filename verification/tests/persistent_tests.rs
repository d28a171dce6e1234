use rust_shiori::dynamic::{Composite, DynamicValue};
use rust_shiori::notes::{Diagnostic, NoteKind};
use rust_shiori::persistent::{PersistentStore, ROOT};
use rust_shiori::value::{GenericInt, GenericValue};

fn text(s: &str) -> DynamicValue {
    DynamicValue::Text(s.as_bytes().to_vec())
}

fn table(pairs: Vec<(DynamicValue, DynamicValue)>) -> Composite {
    Composite { pairs, extension: false }
}

fn export(value: &GenericValue) -> rmpv::Value {
    match value {
        GenericValue::Nil => rmpv::Value::Nil,
        GenericValue::Boolean(b) => rmpv::Value::Boolean(*b),
        GenericValue::Integer(GenericInt::Unsigned(n)) => rmpv::Value::from(*n),
        GenericValue::Integer(GenericInt::Signed(n)) => rmpv::Value::from(*n),
        GenericValue::Float32(bits) => rmpv::Value::F32(f32::from_bits(*bits)),
        GenericValue::Float64(bits) => rmpv::Value::F64(f64::from_bits(*bits)),
        GenericValue::Text(bytes) => match String::from_utf8(bytes.clone()) {
            Ok(s) => rmpv::Value::String(s.into()),
            Err(_) => rmpv::Value::Binary(bytes.clone()),
        },
        GenericValue::Binary(bytes) => rmpv::Value::Binary(bytes.clone()),
        GenericValue::Array(items) => rmpv::Value::Array(items.iter().map(export).collect()),
        GenericValue::Mapping(pairs) => {
            rmpv::Value::Map(pairs.iter().map(|(k, v)| (export(k), export(v))).collect())
        }
        GenericValue::Extension(tag, bytes) => rmpv::Value::Ext(*tag, bytes.clone()),
    }
}

fn pack(value: &rmpv::Value) -> Vec<u8> {
    let mut bytes = Vec::new();
    rmpv::encode::write_value(&mut bytes, value).unwrap();
    bytes
}

fn sample() -> Composite {
    table(vec![
        (text("flag"), DynamicValue::Boolean(true)),
        (text("count"), DynamicValue::Integer(-42)),
        (text("big"), DynamicValue::Integer(i64::MAX)),
        (text("ratio"), DynamicValue::Float(2.5f64.to_bits())),
        (text("name"), text("sakura")),
        (text("nested"), DynamicValue::Composite(table(vec![(text("inner"), DynamicValue::Integer(1))]))),
        (
            text("list"),
            DynamicValue::Composite(table(vec![
                (DynamicValue::Integer(0), text("a")),
                (DynamicValue::Integer(1), text("b")),
            ])),
        ),
    ])
}

#[test]
fn root_label() {
    assert_eq!(ROOT, "<root>");
}

#[test]
fn nothing_read_gives_empty_state_and_one_warning() {
    let mut notes = Vec::new();
    let state = PersistentStore::load(None, "ghost/state.bin", &mut notes);
    assert_eq!(state, table(vec![]));
    assert_eq!(
        notes,
        vec![Diagnostic { kind: NoteKind::NothingLoaded, path: "ghost/state.bin".to_string() }]
    );
}

#[test]
fn corrupt_bytes_give_empty_state_and_one_warning() {
    let whole = pack(&export(&PersistentStore::save(&sample(), &mut Vec::new())));
    let cut = &whole[..whole.len() - 3];
    for bytes in [cut, &[][..], &[0xc1u8][..], &[0xdfu8, 0xff][..], &[0x81u8][..]] {
        let mut notes = Vec::new();
        let state = PersistentStore::load(Some(bytes), "state.bin", &mut notes);
        assert_eq!(state, table(vec![]));
        assert_eq!(notes.len(), 1);
        assert_eq!(notes[0].kind, NoteKind::NothingLoaded);
        assert_eq!(notes[0].path, "state.bin");
    }
}

#[test]
fn stored_value_that_is_no_mapping_gives_empty_state() {
    for value in [
        rmpv::Value::Nil,
        rmpv::Value::from(5),
        rmpv::Value::Array(vec![rmpv::Value::from(1)]),
        rmpv::Value::from("text"),
    ] {
        let mut notes = Vec::new();
        let state = PersistentStore::load(Some(&pack(&value)), "state.bin", &mut notes);
        assert_eq!(state, table(vec![]));
        assert_eq!(notes.len(), 1);
        assert_eq!(notes[0].kind, NoteKind::NothingLoaded);
    }
}

#[test]
fn saved_state_is_loaded_again() {
    let mut notes = Vec::new();
    let stored = PersistentStore::save(&sample(), &mut notes);
    let bytes = pack(&export(&stored));
    let state = PersistentStore::load(Some(&bytes), "state.bin", &mut notes);
    assert_eq!(state, sample());
    assert!(notes.is_empty());
}

#[test]
fn empty_state_is_saved_and_loaded_as_empty() {
    let mut notes = Vec::new();
    let start = PersistentStore::load(Some(&[0xc1u8, 0x00][..]), "state.bin", &mut notes);
    assert_eq!(notes.len(), 1);
    let stored = PersistentStore::save(&start, &mut notes);
    assert_eq!(stored, GenericValue::Mapping(vec![]));
    let bytes = pack(&export(&stored));
    assert_eq!(bytes, vec![0x80]);
    let again = PersistentStore::load(Some(&bytes), "state.bin", &mut notes);
    assert_eq!(again, table(vec![]));
    assert_eq!(notes.len(), 1);
}

#[test]
fn every_kind_of_stored_value_is_read_from_bytes() {
    let value = rmpv::Value::Map(vec![
        (rmpv::Value::from("nil"), rmpv::Value::Nil),
        (rmpv::Value::from("yes"), rmpv::Value::Boolean(true)),
        (rmpv::Value::from("small"), rmpv::Value::from(-1)),
        (rmpv::Value::from("huge"), rmpv::Value::from(u64::MAX)),
        (rmpv::Value::from("single"), rmpv::Value::F32(1.5)),
        (rmpv::Value::from("double"), rmpv::Value::F64(-0.25)),
        (rmpv::Value::from("bytes"), rmpv::Value::Binary(vec![0, 255])),
        (rmpv::Value::from("ext"), rmpv::Value::Ext(4, vec![9])),
        (rmpv::Value::from(3), rmpv::Value::Array(vec![rmpv::Value::from("x")])),
    ]);
    let mut notes = Vec::new();
    let state = PersistentStore::load(Some(&pack(&value)), "state.bin", &mut notes);
    assert_eq!(
        state,
        table(vec![
            (text("nil"), DynamicValue::Nil),
            (text("yes"), DynamicValue::Boolean(true)),
            (text("small"), DynamicValue::Integer(-1)),
            (text("single"), DynamicValue::Float(1.5f64.to_bits())),
            (text("double"), DynamicValue::Float((-0.25f64).to_bits())),
            (text("bytes"), DynamicValue::Text(vec![0, 255])),
            (
                DynamicValue::Integer(3),
                DynamicValue::Composite(table(vec![(DynamicValue::Integer(0), text("x"))])),
            ),
        ])
    );
    assert_eq!(
        notes,
        vec![
            Diagnostic { kind: NoteKind::ValueNotRestored, path: "<root>.huge".to_string() },
            Diagnostic { kind: NoteKind::ValueNotRestored, path: "<root>.ext".to_string() },
        ]
    );
}

#[test]
fn bytes_after_the_stored_value_are_ignored() {
    let mut bytes = pack(&rmpv::Value::Map(vec![(rmpv::Value::from("a"), rmpv::Value::from(1))]));
    bytes.extend_from_slice(&[0xc1, 0xff, 0x00]);
    let mut notes = Vec::new();
    let state = PersistentStore::load(Some(&bytes), "state.bin", &mut notes);
    assert_eq!(state, table(vec![(text("a"), DynamicValue::Integer(1))]));
    assert!(notes.is_empty());
}

#[test]
fn restore_takes_a_value_that_was_read() {
    let mut notes = Vec::new();
    let stored = GenericValue::Mapping(vec![(
        GenericValue::Binary(b"a".to_vec()),
        GenericValue::Boolean(true),
    )]);
    let state = PersistentStore::restore(Some(&stored), "state.bin", &mut notes);
    assert_eq!(state, table(vec![(text("a"), DynamicValue::Boolean(true))]));
    assert!(notes.is_empty());
    let none = PersistentStore::restore(Some(&GenericValue::Nil), "state.bin", &mut notes);
    assert_eq!(none, table(vec![]));
    assert_eq!(notes.len(), 1);
}

#[test]
fn saving_reports_what_was_left_out() {
    let mut notes = Vec::new();
    let state = Composite {
        pairs: vec![(text("f"), DynamicValue::Opaque), (text("n"), DynamicValue::Integer(1))],
        extension: true,
    };
    let stored = PersistentStore::save(&state, &mut notes);
    assert_eq!(
        stored,
        GenericValue::Mapping(vec![(
            GenericValue::Binary(b"n".to_vec()),
            GenericValue::Integer(GenericInt::Unsigned(1)),
        )])
    );
    assert_eq!(
        notes,
        vec![
            Diagnostic { kind: NoteKind::ExtensionDropped, path: "<root>".to_string() },
            Diagnostic { kind: NoteKind::ValueNotStored, path: "<root>.f".to_string() },
        ]
    );
}
