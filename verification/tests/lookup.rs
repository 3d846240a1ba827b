use apple_dirs::text::decode_text;
use apple_dirs::{found_path, resolve_home, resolve_location, LookupFailure};

#[test]
fn no_location_is_no_path_and_no_error() {
    let outcome = resolve_location(None);
    assert_eq!(outcome, Err(LookupFailure::NoLocation));
    assert_eq!(found_path(outcome), None);
}

#[test]
fn caches_of_the_user_lie_below_the_users_own_directory() {
    let reply: &[u8] = b"/Users/alice/Library/Caches";
    let outcome = resolve_location(Some(reply));
    assert_eq!(outcome, Ok(String::from("/Users/alice/Library/Caches")));
    let path = found_path(outcome).expect("the reply names a location");
    assert!(path.ends_with("/Library/Caches"));
    assert!(path.starts_with("/Users/alice/"));
    assert!(!path.starts_with("/Library"));
    assert!(!path.starts_with("/System"));
}

#[test]
fn text_that_is_not_utf8_is_no_path() {
    let reply: &[u8] = &[0x2f, 0x55, 0xff, 0x73];
    let outcome = resolve_location(Some(reply));
    assert_eq!(outcome, Err(LookupFailure::UndecodableText));
    assert_eq!(found_path(outcome), None);
}

#[test]
fn a_sequence_cut_short_is_not_text() {
    let reply: &[u8] = &[0x2f, 0xe2, 0x82];
    assert_eq!(resolve_location(Some(reply)), Err(LookupFailure::UndecodableText));
}

#[test]
fn an_overlong_encoding_is_not_text() {
    let reply: &[u8] = &[0xc0, 0xaf];
    assert_eq!(resolve_location(Some(reply)), Err(LookupFailure::UndecodableText));
}

#[test]
fn a_surrogate_is_not_text() {
    let reply: &[u8] = &[0xed, 0xa0, 0x80];
    assert_eq!(resolve_location(Some(reply)), Err(LookupFailure::UndecodableText));
}

#[test]
fn a_lone_continuation_byte_is_not_text() {
    let reply: &[u8] = &[0x2f, 0x80];
    assert_eq!(resolve_location(Some(reply)), Err(LookupFailure::UndecodableText));
}

#[test]
fn a_value_beyond_unicode_is_not_text() {
    let reply: &[u8] = &[0xf4, 0x90, 0x80, 0x80];
    assert_eq!(resolve_location(Some(reply)), Err(LookupFailure::UndecodableText));
}

#[test]
fn a_path_with_letters_of_many_widths_is_read() {
    let expected = "/Users/zo\u{eb}/\u{97f3}\u{697d}/\u{1f3b5}";
    let reply: Vec<u8> = vec![
        0x2f, 0x55, 0x73, 0x65, 0x72, 0x73, 0x2f, 0x7a, 0x6f, 0xc3, 0xab, 0x2f, 0xe9, 0x9f, 0xb3,
        0xe6, 0xa5, 0xbd, 0x2f, 0xf0, 0x9f, 0x8e, 0xb5,
    ];
    let outcome = resolve_location(Some(reply.as_slice()));
    assert_eq!(outcome, Ok(String::from(expected)));
    let path = found_path(outcome).expect("the reply is well-formed");
    assert_eq!(path.chars().count(), 15);
    assert_eq!(path.chars().nth(9), Some('\u{eb}'));
    assert_eq!(path.chars().last(), Some('\u{1f3b5}'));
}

#[test]
fn a_resolved_path_spells_the_reply() {
    let replies: Vec<Vec<u8>> = vec![
        b"/".to_vec(),
        b"/Library/Application Support".to_vec(),
        vec![0x2f, 0xc3, 0xa9, 0x74, 0xc3, 0xa9],
        vec![0x2f, 0xf0, 0x9f, 0x97, 0x91],
    ];
    for reply in replies {
        let path = resolve_location(Some(reply.as_slice())).expect("the reply is well-formed");
        assert_eq!(path.as_bytes(), reply.as_slice());
    }
}

#[test]
fn a_resolved_path_is_not_empty() {
    let replies: Vec<Vec<u8>> = vec![
        b"/".to_vec(),
        b"a".to_vec(),
        b"/Users/alice/Downloads".to_vec(),
        vec![0xc3, 0xa9],
        vec![0xff],
        vec![0x80, 0x2f],
    ];
    for reply in replies {
        match found_path(resolve_location(Some(reply.as_slice()))) {
            Some(path) => assert!(!path.is_empty()),
            None => {}
        }
    }
}

#[test]
fn empty_text_is_the_empty_path() {
    let reply: &[u8] = &[];
    assert_eq!(resolve_location(Some(reply)), Ok(String::new()));
    assert_eq!(found_path(resolve_location(Some(reply))), Some(String::new()));
}

#[test]
fn text_may_hold_a_zero_byte() {
    let reply: &[u8] = &[0x2f, 0x00, 0x61];
    assert_eq!(resolve_location(Some(reply)), Ok(String::from("/\u{0}a")));
}

#[test]
fn asking_twice_gives_the_same() {
    let good: &[u8] = b"/Users/alice/Documents";
    let bad: &[u8] = &[0x2f, 0xfe];
    assert_eq!(resolve_location(Some(good)), resolve_location(Some(good)));
    assert_eq!(resolve_location(Some(bad)), resolve_location(Some(bad)));
    assert_eq!(resolve_location(None), resolve_location(None));
    assert_eq!(resolve_home(good), resolve_home(good));
    assert_eq!(
        found_path(resolve_location(Some(good))),
        Some(String::from("/Users/alice/Documents"))
    );
}

#[test]
fn different_replies_give_different_paths() {
    let one: &[u8] = b"/Users/alice/Music";
    let other: &[u8] = b"/Users/alice/Movies";
    assert_ne!(resolve_location(Some(one)), resolve_location(Some(other)));
}

#[test]
fn home_is_read_from_its_text() {
    let outcome = resolve_home(b"/Users/alice");
    assert_eq!(outcome, Ok(String::from("/Users/alice")));
    assert_eq!(found_path(outcome), Some(String::from("/Users/alice")));
}

#[test]
fn home_in_a_sandbox_is_the_container() {
    let container: &[u8] = b"/Users/alice/Library/Containers/com.example.app/Data";
    let path = found_path(resolve_home(container)).expect("the text is well-formed");
    assert_eq!(path, "/Users/alice/Library/Containers/com.example.app/Data");
    assert_ne!(Some(path), found_path(resolve_home(b"/Users/alice")));
}

#[test]
fn home_with_unreadable_text_is_no_path() {
    let outcome = resolve_home(&[0x2f, 0x55, 0xc3]);
    assert_eq!(outcome, Err(LookupFailure::UndecodableText));
    assert_eq!(found_path(outcome), None);
}

#[test]
fn home_agrees_with_a_located_directory() {
    let text: &[u8] = b"/var/root";
    assert_eq!(resolve_home(text), resolve_location(Some(text)));
    let bad: &[u8] = &[0xf8];
    assert_eq!(resolve_home(bad), resolve_location(Some(bad)));
}

#[test]
fn found_path_keeps_a_path_and_drops_a_failure() {
    assert_eq!(found_path(Ok(String::from("/tmp"))), Some(String::from("/tmp")));
    assert_eq!(found_path(Ok(String::new())), Some(String::new()));
    assert_eq!(found_path(Err(LookupFailure::NoLocation)), None);
    assert_eq!(found_path(Err(LookupFailure::UndecodableText)), None);
}

#[test]
fn decode_text_reads_utf8_and_nothing_else() {
    assert_eq!(decode_text(b"/Applications"), Some(String::from("/Applications")));
    assert_eq!(decode_text(&[0xc3, 0xbc]), Some(String::from("\u{fc}")));
    assert_eq!(decode_text(&[]), Some(String::new()));
    assert_eq!(decode_text(&[0xc3]), None);
    assert_eq!(decode_text(&[0x41, 0xbc]), None);
    assert_eq!(decode_text(&[0xe0, 0x80, 0x80]), None);
}

#[test]
fn the_two_failures_differ() {
    assert_ne!(LookupFailure::NoLocation, LookupFailure::UndecodableText);
    assert_eq!(format!("{:?}", LookupFailure::NoLocation), "NoLocation");
    assert_eq!(format!("{:?}", LookupFailure::UndecodableText), "UndecodableText");
}
