use inochi2d_rs::error::Inochi2DError;
use inochi2d_rs::ffi::{InError, InPuppetPtr, NativeCall};
use inochi2d_rs::puppet::Inochi2DPuppet;

fn failure_text(result: Result<Inochi2DPuppet, Inochi2DError>) -> String {
    match result {
        Err(Inochi2DError::Load { message }) => message,
        other => panic!("expected a load failure, got {:?}", other),
    }
}

#[test]
fn from_raw_handle_takes_a_live_handle() {
    let puppet =
        Inochi2DPuppet::from_raw_handle(InPuppetPtr { addr: 0xbeef }, "Aka".to_string(), None)
            .unwrap();
    assert_eq!(puppet.handle(), InPuppetPtr { addr: 0xbeef });
    assert!(!puppet.handle().is_null());
    assert_eq!(puppet.name(), "Aka");
}

#[test]
fn from_raw_handle_ignores_the_slot_on_success() {
    let slot = Some(InError::new(b"stale".to_vec()));
    let puppet =
        Inochi2DPuppet::from_raw_handle(InPuppetPtr { addr: 1 }, "Aka".to_string(), slot).unwrap();
    assert_eq!(puppet.name(), "Aka");
}

#[test]
fn null_handle_with_message_gives_the_message() {
    let slot = Some(InError::new(b"File not found: ./missing.inx".to_vec()));
    let result = Inochi2DPuppet::from_raw_handle(InPuppetPtr::null(), "x".to_string(), slot);
    assert_eq!(failure_text(result), "File not found: ./missing.inx");
}

#[test]
fn null_handle_with_multibyte_message_is_decoded() {
    let bytes =
        vec![0x66, 0x69, 0x63, 0x68, 0x69, 0x65, 0x72, 0x20, 0xc3, 0xa9, 0x20, 0xe2, 0x82, 0xac];
    let slot = Some(InError::new(bytes));
    let result = Inochi2DPuppet::from_raw_handle(InPuppetPtr::null(), "x".to_string(), slot);
    let text = failure_text(result);
    assert_eq!(text, "fichier \u{e9} \u{20ac}");
    assert_eq!(text.chars().count(), 11);
}

#[test]
fn null_handle_with_absent_slot_gives_the_fallback() {
    let result = Inochi2DPuppet::from_raw_handle(InPuppetPtr::null(), "x".to_string(), None);
    assert_eq!(failure_text(result), "Unknown error (are C bindings valid?)");
}

#[test]
fn null_handle_with_empty_message_gives_the_fallback() {
    let slot = Some(InError::new(Vec::new()));
    let result = Inochi2DPuppet::from_raw_handle(InPuppetPtr::null(), "x".to_string(), slot);
    assert_eq!(failure_text(result), "Unknown error (are C bindings valid?)");
}

#[test]
fn null_handle_with_undecodable_message_gives_the_decoding_fallback() {
    let slot = Some(InError::new(vec![0x66, 0xff, 0xfe]));
    let result = Inochi2DPuppet::from_raw_handle(InPuppetPtr::null(), "x".to_string(), slot);
    assert_eq!(failure_text(result), "Unknown error (UTF-8 decoding failed!)");
}

#[test]
fn null_handle_with_truncated_sequence_gives_the_decoding_fallback() {
    let slot = Some(InError::new(vec![0x61, 0xe2, 0x82]));
    let result = Inochi2DPuppet::from_raw_handle(InPuppetPtr::null(), "x".to_string(), slot);
    assert_eq!(failure_text(result), "Unknown error (UTF-8 decoding failed!)");
}

#[test]
fn load_failure_text_is_never_empty() {
    let slots: Vec<Option<Vec<u8>>> = vec![
        None,
        Some(vec![]),
        Some(vec![0x80]),
        Some(b"x".to_vec()),
        Some(vec![0xf0, 0x9f, 0x90, 0x88]),
    ];
    for slot in slots {
        let slot = slot.map(InError::new);
        let result = Inochi2DPuppet::from_raw_handle(InPuppetPtr::null(), "x".to_string(), slot);
        assert!(!failure_text(result).is_empty());
    }
}

#[test]
fn new_names_the_puppet_after_its_path() {
    let puppet =
        Inochi2DPuppet::new("./puppets/Aka.inx".to_string(), InPuppetPtr { addr: 7 }, None)
            .unwrap();
    assert_eq!(puppet.name(), "./puppets/Aka.inx");
    assert_eq!(puppet.handle(), InPuppetPtr { addr: 7 });
}

#[test]
fn new_reports_a_nonexistent_path() {
    let slot = Some(InError::new(b"./nowhere.inx: No such file or directory".to_vec()));
    let result = Inochi2DPuppet::new("./nowhere.inx".to_string(), InPuppetPtr::null(), slot);
    assert_eq!(failure_text(result), "./nowhere.inx: No such file or directory");
}

#[test]
fn from_raw_parts_uses_the_given_name() {
    let puppet =
        Inochi2DPuppet::from_raw_parts(InPuppetPtr { addr: 9 }, Some("Midori".to_string()), None)
            .unwrap();
    assert_eq!(puppet.name(), "Midori");
}

#[test]
fn from_raw_parts_defaults_the_name() {
    let puppet = Inochi2DPuppet::from_raw_parts(InPuppetPtr { addr: 9 }, None, None).unwrap();
    assert_eq!(puppet.name(), "<in-memory-puppet>");
    assert_eq!(puppet.handle(), InPuppetPtr { addr: 9 });
}

#[test]
fn from_raw_parts_reports_a_failed_load() {
    let slot = Some(InError::new(b"bad magic".to_vec()));
    let result = Inochi2DPuppet::from_raw_parts(InPuppetPtr::null(), None, slot);
    assert_eq!(failure_text(result), "bad magic");
}

#[test]
fn update_draw_and_release_name_the_handle() {
    let mut puppet =
        Inochi2DPuppet::from_raw_handle(InPuppetPtr { addr: 42 }, "Aka".to_string(), None).unwrap();
    assert_eq!(puppet.update(), NativeCall::PuppetUpdate { puppet: InPuppetPtr { addr: 42 } });
    assert_eq!(puppet.draw(), NativeCall::PuppetDraw { puppet: InPuppetPtr { addr: 42 } });
    assert_eq!(puppet.name(), "Aka");
    assert_eq!(puppet.release(), NativeCall::PuppetDestroy { puppet: InPuppetPtr { addr: 42 } });
}

#[test]
fn puppets_from_file_and_from_memory_ask_for_the_same_calls() {
    let handle = InPuppetPtr { addr: 0x77 };
    let mut from_file = Inochi2DPuppet::new("./Aka.inx".to_string(), handle, None).unwrap();
    let mut from_memory = Inochi2DPuppet::from_raw_parts(handle, None, None).unwrap();
    assert_ne!(from_file.name(), from_memory.name());
    assert_eq!(from_file.update(), from_memory.update());
    assert_eq!(from_file.draw(), from_memory.draw());
}

#[test]
fn error_slot_reports_its_length() {
    assert_eq!(InError::new(b"abc".to_vec()).len(), 3);
    assert_eq!(InError::new(Vec::new()).len(), 0);
}

#[test]
fn error_slot_decodes_text() {
    assert_eq!(InError::new(b"abc".to_vec()).into_text(), Some("abc".to_string()));
    assert_eq!(InError::new(vec![0xc3, 0xa9]).into_text(), Some("\u{e9}".to_string()));
    assert_eq!(InError::new(Vec::new()).into_text(), Some(String::new()));
    assert_eq!(InError::new(vec![0xc3]).into_text(), None);
    assert_eq!(InError::new(vec![0xed, 0xa0, 0x80]).into_text(), None);
    assert_eq!(InError::new(vec![0xc0, 0x80]).into_text(), None);
    assert_eq!(InError::new(vec![0xf4, 0x90, 0x80, 0x80]).into_text(), None);
    assert_eq!(
        InError::new(vec![0xf4, 0x8f, 0xbf, 0xbf]).into_text(),
        Some("\u{10ffff}".to_string())
    );
}

#[test]
fn null_handle_is_null() {
    assert!(InPuppetPtr::null().is_null());
    assert_eq!(InPuppetPtr::null(), InPuppetPtr { addr: 0 });
    assert!(!InPuppetPtr { addr: 1 }.is_null());
}

#[test]
fn error_messages() {
    assert_eq!(Inochi2DError::Configuration.message(), "timing mut be called before build!");
    let load = Inochi2DError::Load { message: "boom".to_string() };
    assert_eq!(load.message(), "boom");
}
