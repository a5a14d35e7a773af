use workmux::meta::{
    ensure_window_token, get_attachment, get_mode_opt, get_target_session, get_target_window,
    get_window_session, get_window_token, meta_written, record_window_token, set_attachment,
    set_meta, token_written, MetaStore, MuxMode, UnstorableAttachment, WorktreeAttachment,
};

#[test]
fn meta_helpers_round_trip_for_both_backends() {
    for backend in ["git", "jj"] {
        let mut store = MetaStore::new();
        match backend {
            "git" => {}
            // A store that holds values of another workspace already.
            "jj" => {
                set_meta(&mut store, "other", "mode", "window");
                set_meta(&mut store, "other", "attachment", "headless");
                set_meta(&mut store, "other", "window-token", "taken");
            }
            _ => unreachable!(),
        }

        assert_eq!(get_mode_opt(&store, "h"), None);
        set_meta(&mut store, "h", "mode", "session");
        assert_eq!(get_mode_opt(&store, "h"), Some(MuxMode::Session));

        assert_eq!(get_attachment(&store, "h"), WorktreeAttachment::Legacy);
        set_attachment(&mut store, "h", WorktreeAttachment::Multiplexer).unwrap();
        assert_eq!(get_attachment(&store, "h"), WorktreeAttachment::Multiplexer);

        let token = ensure_window_token(&mut store, "h").ok().unwrap();
        assert_eq!(token.len(), 32);
        // Second call must return the same token, not generate a new one.
        assert_eq!(ensure_window_token(&mut store, "h").ok().unwrap(), token);
    }
}

#[test]
fn attachments_are_read_back() {
    let mut store = MetaStore::new();
    assert!(set_attachment(&mut store, "a", WorktreeAttachment::Headless).is_ok());
    assert_eq!(get_attachment(&store, "a"), WorktreeAttachment::Headless);
    assert_eq!(get_attachment(&store, "b"), WorktreeAttachment::Legacy);
    set_meta(&mut store, "b", "attachment", "something else");
    assert_eq!(get_attachment(&store, "b"), WorktreeAttachment::Unknown);
}

#[test]
fn attachments_without_a_recorded_form_are_refused() {
    let mut store = MetaStore::new();
    set_meta(&mut store, "a", "attachment", "headless");
    for attachment in [WorktreeAttachment::Unknown, WorktreeAttachment::Legacy] {
        assert_eq!(
            set_attachment(&mut store, "a", attachment),
            Err(UnstorableAttachment { attachment })
        );
        assert_eq!(get_attachment(&store, "a"), WorktreeAttachment::Headless);
    }
}

#[test]
fn modes_are_read_back() {
    let mut store = MetaStore::new();
    for mode in [MuxMode::Window, MuxMode::Session] {
        set_meta(&mut store, "a", "mode", mode.as_meta_value());
        assert_eq!(get_mode_opt(&store, "a"), Some(mode));
    }
    set_meta(&mut store, "a", "mode", "pane");
    assert_eq!(get_mode_opt(&store, "a"), None);
}

#[test]
fn a_value_is_replaced_and_others_stay() {
    let mut store = MetaStore::new();
    set_meta(&mut store, "a", "target-window", "1");
    set_meta(&mut store, "a", "target-session", "2");
    set_meta(&mut store, "a", "window-session", "3");
    set_meta(&mut store, "b", "target-window", "4");
    set_meta(&mut store, "a", "target-window", "5");
    assert_eq!(get_target_window(&store, "a").as_deref(), Some("5"));
    assert_eq!(get_target_session(&store, "a").as_deref(), Some("2"));
    assert_eq!(get_window_session(&store, "a").as_deref(), Some("3"));
    assert_eq!(get_target_window(&store, "b").as_deref(), Some("4"));
    assert_eq!(get_target_session(&store, "b"), None);
    assert_eq!(get_window_token(&store, "a"), None);
}

#[test]
fn a_token_is_the_bytes_in_hexadecimal() {
    let mut store = MetaStore::new();
    let bytes: Vec<u8> = (0..16).map(|i| i * 17).collect();
    let token = record_window_token(&mut store, "a", &bytes);
    assert_eq!(token, "00112233445566778899aabbccddeeff");
    assert_eq!(get_window_token(&store, "a"), Some(token.clone()));
    assert_eq!(ensure_window_token(&mut store, "a").ok(), Some(token));
}

#[test]
fn tokens_are_made_of_random_bytes() {
    let mut store = MetaStore::new();
    let mut tokens = std::collections::BTreeSet::new();
    for handle in ["a", "b", "c", "d"] {
        let token = ensure_window_token(&mut store, handle).ok().unwrap();
        assert!(token.chars().all(|c| c.is_ascii_digit() || ('a'..='f').contains(&c)));
        assert_ne!(token, "0".repeat(32));
        tokens.insert(token);
    }
    assert_eq!(tokens.len(), 4);
}

#[test]
fn a_refused_write_is_handed_on() {
    let mut store = MetaStore::new();
    set_meta(&mut store, "a", "mode", "window");
    let refused: Result<(), &str> = Err("read-only");
    assert_eq!(meta_written(&mut store, "a", "mode", "session", refused), refused);
    assert_eq!(get_mode_opt(&store, "a"), Some(MuxMode::Window));
    assert_eq!(token_written(&mut store, "a", "token".to_string(), refused), Err("read-only"));
    assert_eq!(get_window_token(&store, "a"), None);

    let written: Result<(), &str> = Ok(());
    assert_eq!(meta_written(&mut store, "a", "mode", "session", written), Ok(()));
    assert_eq!(get_mode_opt(&store, "a"), Some(MuxMode::Session));
    let token = "token".to_string();
    assert_eq!(token_written(&mut store, "a", token.clone(), written), Ok(token.clone()));
    assert_eq!(get_window_token(&store, "a"), Some(token));
}
