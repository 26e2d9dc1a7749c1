use tinyfiledialogs::{
    any_contains_nul, color_chooser_dialog, color_reply, filter_contains_nul, input_box,
    list_contains_nul, list_dialog, message_box, open_file_dialog, open_file_dialog_multi,
    password_box, save_file_dialog, save_file_dialog_with_filter, select_folder_dialog, BoxButton,
    CText, DefaultColorValue, Icon, MessageBox,
};

fn bytes(buffers: &[CText]) -> Vec<Vec<u8>> {
    buffers.iter().map(|b| b.as_bytes_with_nul().to_vec()).collect()
}

#[test]
fn message_box_kind_words() {
    assert_eq!(MessageBox::OkOnly.to_str(), "ok");
    assert_eq!(MessageBox::OkCancel.to_str(), "okcancel");
    assert_eq!(MessageBox::YesNo.to_str(), "yesno");
}

#[test]
fn icon_words() {
    assert_eq!(Icon::Info.to_str(), "info");
    assert_eq!(Icon::Warning.to_str(), "warning");
    assert_eq!(Icon::Error.to_str(), "error");
    assert_eq!(Icon::Question.to_str(), "question");
}

#[test]
fn button_codes() {
    assert_eq!(BoxButton::CancelNo.code(), 0);
    assert_eq!(BoxButton::OkYes.code(), 1);
}

#[test]
fn button_from_code() {
    assert_eq!(BoxButton::from_code(0), Some(BoxButton::CancelNo));
    assert_eq!(BoxButton::from_code(1), Some(BoxButton::OkYes));
}

#[test]
fn button_from_other_code_is_none() {
    assert_eq!(BoxButton::from_code(2), None);
    assert_eq!(BoxButton::from_code(-1), None);
    assert_eq!(BoxButton::from_code(i32::MAX), None);
    assert_eq!(BoxButton::from_code(i32::MIN), None);
}

#[test]
fn button_code_round_trip() {
    for button in [BoxButton::CancelNo, BoxButton::OkYes] {
        assert_eq!(BoxButton::from_code(button.code()), Some(button));
    }
}

#[test]
fn message_box_call() {
    let call = message_box(
        MessageBox::YesNo,
        "hello",
        "yes or no?",
        Some(Icon::Question),
        Some(BoxButton::CancelNo),
    );
    assert_eq!(call.title.as_bytes_with_nul(), b"hello\0");
    assert_eq!(call.message.as_bytes_with_nul(), b"yes or no?\0");
    assert_eq!(call.dialog_type.as_bytes_with_nul(), b"yesno\0");
    assert_eq!(call.icon_type.as_bytes_with_nul(), b"question\0");
    assert_eq!(call.default_button, 0);
}

#[test]
fn message_box_defaults() {
    let call = message_box(MessageBox::OkOnly, "t", "m", None, None);
    assert_eq!(call.dialog_type.as_bytes_with_nul(), b"ok\0");
    assert_eq!(call.icon_type.as_bytes_with_nul(), b"info\0");
    assert_eq!(call.default_button, 1);
    assert_eq!(call, message_box(MessageBox::OkOnly, "t", "m", Some(Icon::Info), Some(BoxButton::OkYes)));
}

#[test]
fn message_box_every_kind_and_icon() {
    let kinds = [(MessageBox::OkOnly, "ok"), (MessageBox::OkCancel, "okcancel"), (MessageBox::YesNo, "yesno")];
    let icons = [
        (Icon::Info, "info"),
        (Icon::Warning, "warning"),
        (Icon::Error, "error"),
        (Icon::Question, "question"),
    ];
    for (kind, kind_word) in kinds {
        for (icon, icon_word) in icons {
            let call = message_box(kind, "t", "m", Some(icon), Some(BoxButton::OkYes));
            assert_eq!(call.dialog_type, CText::new(kind_word).unwrap());
            assert_eq!(call.icon_type, CText::new(icon_word).unwrap());
            assert_eq!(call.default_button, 1);
        }
    }
}

#[test]
fn input_box_with_default() {
    let call = input_box("Enter user name", "Username:", Some("root"));
    assert_eq!(call.title.as_bytes_with_nul(), b"Enter user name\0");
    assert_eq!(call.message.as_bytes_with_nul(), b"Username:\0");
    assert_eq!(call.default_input, Some(CText::new("root").unwrap()));
}

#[test]
fn input_box_without_default_is_empty_default() {
    let absent = input_box("Enter user name", "Username:", None);
    let empty = input_box("Enter user name", "Username:", Some(""));
    assert_eq!(absent, empty);
    assert_eq!(absent.default_input.unwrap().as_bytes_with_nul(), &[0u8]);
}

#[test]
fn password_box_has_no_default() {
    let call = password_box("Login", "Password:");
    assert_eq!(call.title.as_bytes_with_nul(), b"Login\0");
    assert_eq!(call.message.as_bytes_with_nul(), b"Password:\0");
    assert_eq!(call.default_input, None);
    assert_ne!(call, input_box("Login", "Password:", None));
}

#[test]
fn save_file_dialog_without_filter() {
    let call = save_file_dialog("Save", "password.txt");
    assert_eq!(call.title.as_bytes_with_nul(), b"Save\0");
    assert_eq!(call.path.as_bytes_with_nul(), b"password.txt\0");
    assert_eq!(call.pattern_count, 0);
    assert!(call.patterns.is_empty());
    assert_eq!(call.description.as_bytes_with_nul(), b"\0");
}

#[test]
fn save_file_dialog_filter() {
    let call = save_file_dialog_with_filter("Save", "out.png", &["*.png", "*.jpg"], "Images");
    assert_eq!(call.title.as_bytes_with_nul(), b"Save\0");
    assert_eq!(call.path.as_bytes_with_nul(), b"out.png\0");
    assert_eq!(call.pattern_count, 2);
    assert_eq!(bytes(&call.patterns), vec![b"*.png\0".to_vec(), b"*.jpg\0".to_vec()]);
    assert_eq!(call.description.as_bytes_with_nul(), b"Images\0");
}

#[test]
fn save_file_dialog_empty_filter() {
    let call = save_file_dialog_with_filter("Save", "", &[], "Anything");
    assert_eq!(call.pattern_count, 0);
    assert!(call.patterns.is_empty());
    assert_eq!(call.description.as_bytes_with_nul(), b"Anything\0");
}

#[test]
fn open_file_dialog_single() {
    let call = open_file_dialog("Open", "password.txt", None);
    assert_eq!(call.title.as_bytes_with_nul(), b"Open\0");
    assert_eq!(call.path.as_bytes_with_nul(), b"password.txt\0");
    assert_eq!(call.pattern_count, 0);
    assert!(call.patterns.is_empty());
    assert_eq!(call.description.as_bytes_with_nul(), b"\0");
    assert_eq!(call.allow_multiple, 0);
}

#[test]
fn open_file_dialog_multi_flag() {
    let patterns = ["*.txt", "*.md", "*.rst"];
    let call = open_file_dialog_multi("Open", "", Some((&patterns, "Text")));
    assert_eq!(call.pattern_count, 3);
    assert_eq!(
        bytes(&call.patterns),
        vec![b"*.txt\0".to_vec(), b"*.md\0".to_vec(), b"*.rst\0".to_vec()]
    );
    assert_eq!(call.description.as_bytes_with_nul(), b"Text\0");
    assert_eq!(call.allow_multiple, 1);
}

#[test]
fn open_file_dialog_variants_differ_only_in_flag() {
    let patterns = ["*.txt"];
    let single = open_file_dialog("Open", "here", Some((&patterns, "Text")));
    let mut multi = open_file_dialog_multi("Open", "here", Some((&patterns, "Text")));
    assert_ne!(single, multi);
    multi.allow_multiple = 0;
    assert_eq!(single, multi);
}

#[test]
fn select_folder_dialog_call() {
    let call = select_folder_dialog("Select folder", "");
    assert_eq!(call.title.as_bytes_with_nul(), b"Select folder\0");
    assert_eq!(call.path.as_bytes_with_nul(), b"\0");
}

#[test]
fn list_dialog_without_columns_is_no_call() {
    assert_eq!(list_dialog("Test Dialog", &[], None), None);
    assert_eq!(list_dialog("Test Dialog", &[], Some(&["1", "2"])), None);
    assert_eq!(list_dialog("", &[], Some(&[])), None);
}

#[test]
fn list_dialog_call() {
    let call = list_dialog(
        "Test Dialog",
        &["Id", "Name"],
        Some(&["471", "Donald Duck", "1143", "Chris P. Bacon", "6509", "Moon Doge"]),
    )
    .unwrap();
    assert_eq!(call.title.as_bytes_with_nul(), b"Test Dialog\0");
    assert_eq!(call.column_count, 2);
    assert_eq!(bytes(&call.columns), vec![b"Id\0".to_vec(), b"Name\0".to_vec()]);
    assert_eq!(call.row_count, 3);
    assert_eq!(call.cells.len(), 6);
    assert_eq!(call.cells[3].as_bytes_with_nul(), b"Chris P. Bacon\0");
}

#[test]
fn list_dialog_without_cells() {
    let call = list_dialog("Pick", &["Only"], None).unwrap();
    assert_eq!(call.column_count, 1);
    assert_eq!(call.row_count, 0);
    assert!(call.cells.is_empty());
}

#[test]
fn list_dialog_counts_whole_rows() {
    let call = list_dialog("Pick", &["A", "B", "C"], Some(&["1", "2", "3", "4", "5"])).unwrap();
    assert_eq!(call.column_count, 3);
    assert_eq!(call.row_count, 1);
    assert_eq!(call.cells.len(), 5);
    let short = list_dialog("Pick", &["A", "B", "C"], Some(&["1", "2"])).unwrap();
    assert_eq!(short.row_count, 0);
}

#[test]
fn color_chooser_hex_default_passes_zero_rgb() {
    let call = color_chooser_dialog("Choose a Color", DefaultColorValue::Hex("#FF0000"));
    assert_eq!(call.title.as_bytes_with_nul(), b"Choose a Color\0");
    assert_eq!(call.default_hex.unwrap().as_bytes_with_nul(), b"#FF0000\0");
    assert_eq!(call.default_rgb, [0, 0, 0]);
}

#[test]
fn color_chooser_rgb_default_passes_no_hex() {
    let call = color_chooser_dialog("Choose a Color", DefaultColorValue::RGB(&[1, 2, 3]));
    assert_eq!(call.default_hex, None);
    assert_eq!(call.default_rgb, [1, 2, 3]);
}

#[test]
fn color_reply_null_is_absent() {
    assert_eq!(color_reply(None, [9, 9, 9]), None);
}

#[test]
fn color_reply_pairs_hex_and_rgb() {
    assert_eq!(
        color_reply(Some(b"#0A141E\0"), [10, 20, 30]),
        Some(("#0A141E".to_string(), [10, 20, 30]))
    );
}

#[test]
fn calls_marshal_non_ascii_text() {
    let call = select_folder_dialog("Dossier \u{e9}", "/tmp/\u{4e2d}");
    assert_eq!(call.title, CText::new("Dossier \u{e9}").unwrap());
    assert_eq!(call.path.as_bytes_with_nul(), &[b'/', b't', b'm', b'p', b'/', 0xE4, 0xB8, 0xAD, 0]);
}

#[test]
fn any_contains_nul_looks_at_every_text() {
    assert!(!any_contains_nul(&[]));
    assert!(!any_contains_nul(&["*.png", "*.jpg"]));
    assert!(any_contains_nul(&["\0", "*.jpg"]));
    assert!(any_contains_nul(&["*.png", "*.j\0pg"]));
    assert!(any_contains_nul(&["a", "b", "c\0"]));
}

#[test]
fn filter_contains_nul_looks_at_patterns_and_description() {
    assert!(!filter_contains_nul(None));
    assert!(!filter_contains_nul(Some((&[], ""))));
    assert!(!filter_contains_nul(Some((&["*.txt"], "Text"))));
    assert!(filter_contains_nul(Some((&["*.txt"], "Te\0xt"))));
    assert!(filter_contains_nul(Some((&["*.txt", "\0"], "Text"))));
}

#[test]
fn list_contains_nul_ignores_cells_without_columns() {
    assert!(!list_contains_nul(&[], None));
    assert!(!list_contains_nul(&[], Some(&["\0"])));
    assert!(!list_contains_nul(&["Id"], None));
    assert!(!list_contains_nul(&["Id"], Some(&["1", "2"])));
    assert!(list_contains_nul(&["I\0d"], None));
    assert!(list_contains_nul(&["Id"], Some(&["1", "\0"])));
}
