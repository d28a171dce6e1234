use rust_shiori::fields::FieldMap;
use rust_shiori::number::{parse_signed, parse_unsigned};
use rust_shiori::request::typed::{
    CloseReason, OnBalloonChange, OnBoot, OnClose, OnDressupChanged, OnFirstBoot, OnGhostChanged,
    OnGhostChanging, OnOtherGhostChanged, OnShellChanged, OnWindowStateRestore, RequestKind,
    RequestType, SwitchType,
};
use rust_shiori::request::{FromRequestField, Method, Request};
use rust_shiori::text::{collect, to_chars};

fn request(lines: &[&str]) -> Request {
    let mut text = String::from("GET SHIORI/3.0\r\n");
    for line in lines {
        text.push_str(line);
        text.push_str("\r\n");
    }
    text.push_str("\r\n");
    Request::parse(&text).unwrap()
}

#[test]
fn common_fields_are_taken_out() {
    let untyped = request(&["Sender: SSP", "Charset: UTF-8", "SecurityLevel: local", "ID: OnUnknown"]);
    let typed = untyped.as_typed();
    assert_eq!(typed.method(), Method::Get);
    assert_eq!(typed.version(), "3.0");
    assert_eq!(typed.sender(), Some("SSP"));
    assert_eq!(typed.charset(), Some("UTF-8"));
    assert_eq!(typed.security_level(), Some("local"));
    assert_eq!(typed.id(), Some("OnUnknown"));
    assert!(matches!(typed.kind(), RequestKind::Other));
    let bare = request(&[]);
    let typed = bare.as_typed();
    assert_eq!(typed.sender(), None);
    assert_eq!(typed.id(), None);
    assert!(matches!(typed.kind(), RequestKind::Other));
}

#[test]
fn first_boot_reads_a_count() {
    let untyped = request(&["ID: OnFirstBoot", "Reference0: 3"]);
    assert_eq!(OnFirstBoot::from_untyped(&untyped).unwrap().times_uninstalled, 3);
    assert!(matches!(
        RequestKind::from_untyped(&untyped),
        RequestKind::OnFirstBoot(OnFirstBoot { times_uninstalled: 3 })
    ));
    assert!(OnFirstBoot::from_untyped(&request(&["ID: OnFirstBoot"])).is_err());
    assert!(OnFirstBoot::from_untyped(&request(&["ID: OnFirstBoot", "Reference0: x"])).is_err());
    assert!(OnFirstBoot::from_untyped(&request(&["ID: OnBoot", "Reference0: 3"])).is_err());
    assert!(OnFirstBoot::from_untyped(&request(&["Reference0: 3"])).is_err());
    assert!(matches!(
        RequestKind::from_untyped(&request(&["ID: OnFirstBoot", "Reference0: -1"])),
        RequestKind::Other
    ));
}

#[test]
fn boot_reads_the_shell() {
    let untyped = request(&["ID: OnBoot", "Reference0: master"]);
    assert_eq!(OnBoot::from_untyped(&untyped).unwrap().shell, "master");
    assert!(matches!(untyped.as_typed().kind(), RequestKind::OnBoot(OnBoot { shell: "master" })));
    assert_eq!(OnBoot::ID, "OnBoot");
}

#[test]
fn close_reads_its_reason() {
    let user = request(&["ID: OnClose", "Reference0: user"]);
    assert_eq!(OnClose::from_untyped(&user).unwrap().reason, CloseReason::User);
    let system = request(&["ID: OnClose", "Reference0: system"]);
    assert_eq!(OnClose::from_untyped(&system).unwrap().reason, CloseReason::System);
    assert!(OnClose::from_untyped(&request(&["ID: OnClose", "Reference0: User"])).is_err());
    assert!(OnClose::from_untyped(&request(&["ID: OnClose"])).is_err());
    assert!(matches!(
        RequestKind::from_untyped(&request(&["ID: OnCloseAll", "Reference0: system"])),
        RequestKind::OnCloseAll(_)
    ));
}

#[test]
fn ghost_changed_reads_required_and_optional_fields() {
    let untyped = request(&[
        "ID: OnGhostChanged",
        "Reference0: Sakura",
        "Reference1: \\0hello\\e",
        "Reference3: ghost/old",
    ]);
    let event = OnGhostChanged::from_untyped(&untyped).unwrap();
    assert_eq!(event.last_ghost_sakura, "Sakura");
    assert_eq!(event.last_script, "\\0hello\\e");
    assert_eq!(event.last_ghost, None);
    assert_eq!(event.last_ghost_path, Some("ghost/old"));
    assert_eq!(event.shell, None);
    assert!(OnGhostChanged::from_untyped(&request(&["ID: OnGhostChanged", "Reference0: Sakura"])).is_err());
}

#[test]
fn ghost_changing_reads_how_the_switch_came() {
    let untyped = request(&["ID: OnGhostChanging", "Reference0: Next", "Reference1: manual"]);
    let event = OnGhostChanging::from_untyped(&untyped).unwrap();
    assert_eq!(event.new_ghost_sakura, "Next");
    assert_eq!(event.switch_type, SwitchType::Manual);
    assert_eq!(event.new_ghost_name, None);
    let automatic = request(&["ID: OnGhostChanging", "Reference0: Next", "Reference1: automatic"]);
    assert_eq!(OnGhostChanging::from_untyped(&automatic).unwrap().switch_type, SwitchType::Automatic);
    let other = request(&["ID: OnGhostChanging", "Reference0: Next", "Reference1: maybe"]);
    assert!(OnGhostChanging::from_untyped(&other).is_err());
}

#[test]
fn other_ghost_changed_reads_high_references() {
    let untyped = request(&[
        "ID: OnOtherGhostChanged",
        "Reference0: a",
        "Reference1: b",
        "Reference2: c",
        "Reference3: d",
        "Reference4: e",
        "Reference5: f",
        "Reference14: g",
        "Reference15: h",
    ]);
    let event = OnOtherGhostChanged::from_untyped(&untyped).unwrap();
    assert_eq!(event.last_ghost_sakura, "a");
    assert_eq!(event.new_ghost, "f");
    assert_eq!(event.last_shell, "g");
    assert_eq!(event.new_shell, "h");
    assert!(matches!(RequestKind::from_untyped(&untyped), RequestKind::OnOtherGhostChanged(_)));
}

#[test]
fn remaining_kinds() {
    let shell = request(&["ID: OnShellChanged", "Reference0: master", "Reference1: Sakura"]);
    let event = OnShellChanged::from_untyped(&shell).unwrap();
    assert_eq!(event.current_shell, "master");
    assert_eq!(event.ghost_name, Some("Sakura"));
    assert_eq!(event.current_shell_path, None);
    let dressup = request(&["ID: OnDressupChanged", "Reference0: 0", "Reference1: hat", "Reference2: 1"]);
    let event = OnDressupChanged::from_untyped(&dressup).unwrap();
    assert_eq!(event.character, "0");
    assert_eq!(event.part, "hat");
    assert_eq!(event.valid, 1);
    assert_eq!(event.category, None);
    let balloon = request(&["ID: OnBalloonChange", "Reference0: b", "Reference1: path"]);
    assert_eq!(OnBalloonChange::from_untyped(&balloon).unwrap().new_balloon_path, "path");
    assert!(matches!(RequestKind::from_untyped(&balloon), RequestKind::Other));
    assert!(OnWindowStateRestore::from_untyped(&request(&["ID: OnWindowStateRestore"])).is_ok());
    assert!(OnWindowStateRestore::from_untyped(&request(&["ID: OnWindowStateMinimize"])).is_err());
}

#[test]
fn fields_are_read_as_text_numbers_and_characters() {
    assert_eq!(<&str>::from_request_field(Some("x")), Ok("x"));
    assert_eq!(<&str>::from_request_field(None), Err(()));
    assert_eq!(<Option<&str>>::from_request_field(None), Ok(None));
    assert_eq!(<Option<&str>>::from_request_field(Some("x")), Ok(Some("x")));
    assert_eq!(<Option<u8>>::from_request_field(Some("x")), Err(()));
    assert_eq!(<Option<u8>>::from_request_field(Some("7")), Ok(Some(7)));
    assert_eq!(u8::from_request_field(Some("255")), Ok(255));
    assert_eq!(u8::from_request_field(Some("256")), Err(()));
    assert_eq!(u8::from_request_field(Some("+7")), Ok(7));
    assert_eq!(u8::from_request_field(Some("-0")), Err(()));
    assert_eq!(u8::from_request_field(Some("")), Err(()));
    assert_eq!(u8::from_request_field(None), Err(()));
    assert_eq!(u16::from_request_field(Some("65535")), Ok(65535));
    assert_eq!(u32::from_request_field(Some("4294967296")), Err(()));
    assert_eq!(u64::from_request_field(Some("18446744073709551615")), Ok(u64::MAX));
    assert_eq!(u128::from_request_field(Some("340282366920938463463374607431768211455")), Ok(u128::MAX));
    assert_eq!(u128::from_request_field(Some("340282366920938463463374607431768211456")), Err(()));
    assert_eq!(usize::from_request_field(Some("0012")), Ok(12));
    assert_eq!(i8::from_request_field(Some("-128")), Ok(-128));
    assert_eq!(i8::from_request_field(Some("128")), Err(()));
    assert_eq!(i8::from_request_field(Some("-129")), Err(()));
    assert_eq!(i16::from_request_field(Some("-0")), Ok(0));
    assert_eq!(i32::from_request_field(Some("+2147483647")), Ok(i32::MAX));
    assert_eq!(i64::from_request_field(Some("-9223372036854775808")), Ok(i64::MIN));
    assert_eq!(i128::from_request_field(Some("-170141183460469231731687303715884105728")), Ok(i128::MIN));
    assert_eq!(i128::from_request_field(Some("170141183460469231731687303715884105728")), Err(()));
    assert_eq!(isize::from_request_field(Some("- 1")), Err(()));
    assert_eq!(isize::from_request_field(Some("-")), Err(()));
    assert_eq!(isize::from_request_field(Some("+")), Err(()));
    assert_eq!(isize::from_request_field(Some("1 ")), Err(()));
    assert_eq!(char::from_request_field(Some("x")), Ok('x'));
    assert_eq!(char::from_request_field(Some("あ")), Ok('あ'));
    assert_eq!(char::from_request_field(Some("xy")), Err(()));
    assert_eq!(char::from_request_field(Some("")), Err(()));
    assert_eq!(String::from_request_field(Some("x y")), Ok("x y".to_string()));
    assert_eq!(String::from_request_field(None), Err(()));
    assert_eq!(<Option<String>>::from_request_field(None), Ok(None));
    assert_eq!(CloseReason::from_request_field(Some("user")), Ok(CloseReason::User));
    assert_eq!(SwitchType::from_request_field(None), Err(()));
}

#[test]
fn numbers_are_read_as_the_standard_library_reads_them() {
    let texts = [
        "0", "1", "9", "10", "007", "+5", "-5", "+-5", "--5", "++5", "", "+", "-", " 5", "5 ", "5a",
        "a5", "١٢", "127", "128", "-128", "-129", "255", "256", "65535", "65536", "4294967295",
        "99999999999999999999999999999999999999999999", "-99999999999999999999999999999999999999999",
        "18446744073709551615", "18446744073709551616", "-9223372036854775808",
        "-9223372036854775809", "9223372036854775807", "9223372036854775808", "1_000", "0x10",
    ];
    for text in texts.iter() {
        assert_eq!(parse_unsigned(text, u8::MAX as u128).map(|n| n as u8), text.parse::<u8>().ok(), "u8 {:?}", text);
        assert_eq!(parse_unsigned(text, u32::MAX as u128).map(|n| n as u32), text.parse::<u32>().ok(), "u32 {:?}", text);
        assert_eq!(parse_unsigned(text, u64::MAX as u128).map(|n| n as u64), text.parse::<u64>().ok(), "u64 {:?}", text);
        assert_eq!(parse_unsigned(text, u128::MAX), text.parse::<u128>().ok(), "u128 {:?}", text);
        assert_eq!(parse_signed(text, i8::MIN as i128, i8::MAX as i128).map(|n| n as i8), text.parse::<i8>().ok(), "i8 {:?}", text);
        assert_eq!(parse_signed(text, i64::MIN as i128, i64::MAX as i128).map(|n| n as i64), text.parse::<i64>().ok(), "i64 {:?}", text);
        assert_eq!(parse_signed(text, i128::MIN, i128::MAX), text.parse::<i128>().ok(), "i128 {:?}", text);
    }
}

#[test]
fn signed_numbers_are_read_within_any_bounds() {
    assert_eq!(parse_signed("5", 1, 9), Some(5));
    assert_eq!(parse_signed("0", 1, 9), None);
    assert_eq!(parse_signed("-0", 1, 9), None);
    assert_eq!(parse_signed("10", 1, 9), None);
    assert_eq!(parse_signed("-5", -9, -1), Some(-5));
    assert_eq!(parse_signed("+5", -9, -1), None);
    assert_eq!(parse_signed("0", -9, -1), None);
    assert_eq!(parse_signed("-10", -9, -1), None);
    assert_eq!(parse_signed("3", 5, 2), None);
    assert_eq!(parse_signed("0", 0, 0), Some(0));
    assert_eq!(parse_signed("-0", 0, 0), Some(0));
    assert_eq!(parse_signed("x", i128::MIN, i128::MAX), None);
}

#[test]
fn field_table_keeps_order_and_replaces_in_place() {
    let table = FieldMap::new()
        .insert("b".to_string(), "1".to_string())
        .insert("a".to_string(), "2".to_string())
        .insert("b".to_string(), "3".to_string());
    assert_eq!(table.len(), 2);
    assert_eq!(table.names(), vec!["b", "a"]);
    assert_eq!(table.get("b"), Some("3"));
    assert_eq!(table.get("a"), Some("2"));
    assert_eq!(table.get("c"), None);
    assert_eq!(table.name_at(1), "a");
    assert_eq!(table.value_at(0), "3");
}

#[test]
fn text_helpers() {
    let chars = to_chars("aあb");
    assert_eq!(chars, vec!['a', 'あ', 'b']);
    assert_eq!(collect(&chars, 1, 3), "あb");
    assert_eq!(collect(&chars, 2, 2), "");
    let mut text = String::from("n=");
    rust_shiori::text::push_decimal(&mut text, 0);
    rust_shiori::text::push_decimal(&mut text, 1234567890);
    rust_shiori::text::push_signed(&mut text, -45);
    rust_shiori::text::push_hex(&mut text, 0xbeef, 6);
    assert_eq!(text, "n=01234567890-4500beef");
}
