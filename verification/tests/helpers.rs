use text_editor::fns::{
    color_to_u64, get_byte, get_current_file, get_current_file_mut, insert_all, some_if,
    split_lines, u64_to_color, Color,
};
use text_editor::errors::{
    decimal_text, err, IoError, IoErrorKind, ProgramError, RawProgramError,
};
use text_editor::program_data::{chars_of, File, KeysPressed};
use text_editor::settings::{FrameTimingSetting, SettingValueEnum};

#[test]
fn split_lines_splits_on_both_line_endings() {
    assert_eq!(split_lines("abc\nde"), vec!["abc", "de"]);
    assert_eq!(split_lines("abc\r\nde"), vec!["abc", "de"]);
    assert_eq!(split_lines("a\n\nb"), vec!["a", "", "b"]);
    assert_eq!(split_lines("a\n"), vec!["a", ""]);
    assert_eq!(split_lines(""), vec![""]);
    assert_eq!(split_lines("\r\n"), vec!["", ""]);
    assert_eq!(split_lines("a\rb"), vec!["a\rb"]);
    assert_eq!(split_lines("a\r\r\nb\r"), vec!["a\r", "b\r"]);
}

#[test]
fn split_lines_agrees_with_the_pattern_of_line_endings() {
    let pattern = regex::Regex::new("((\r\n)|\n)").unwrap();
    let samples = [
        "",
        "\n",
        "\r",
        "\r\n",
        "one line",
        "two\nlines",
        "dos\r\nlines\r\n",
        "mixed\r\nends\nhere\r",
        "\n\n\n",
        "\r\r\n\r\n\n\r",
        "tab\tand \u{e9}\n\u{4e2d}\u{6587}\r\nend",
    ];
    for sample in samples {
        let expected: Vec<String> = pattern.split(sample).map(|s| s.to_string()).collect();
        assert_eq!(split_lines(sample), expected);
    }
}

#[test]
fn insert_all_inserts_in_order() {
    let mut dest = vec![1, 2, 3];
    insert_all(&[7, 8], &mut dest, 1);
    assert_eq!(dest, vec![1, 7, 8, 2, 3]);
    insert_all(&[9], &mut dest, 5);
    assert_eq!(dest, vec![1, 7, 8, 2, 3, 9]);
    insert_all(&[], &mut dest, 0);
    assert_eq!(dest, vec![1, 7, 8, 2, 3, 9]);
}

#[test]
fn some_if_calls_only_when_the_condition_holds() {
    assert_eq!(some_if(true, || 5), Some(5));
    assert_eq!(some_if(false, || -> i32 { panic!("must not be called") }), None);
}

#[test]
fn get_byte_takes_one_byte() {
    assert_eq!(get_byte(0x1122334455667788, 0), 0x88);
    assert_eq!(get_byte(0x1122334455667788, 3), 0x55);
    assert_eq!(get_byte(0x1122334455667788, 7), 0x11);
}

#[test]
fn colors_and_numbers_convert_both_ways() {
    let color = Color { r: 0x12, g: 0x34, b: 0x56, a: 0x78 };
    assert_eq!(color_to_u64(color), 0x78563412);
    assert_eq!(u64_to_color(0x78563412), Some(color));
    assert_eq!(u64_to_color(0xFFFF_FFFF), Some(Color { r: 255, g: 255, b: 255, a: 255 }));
    assert_eq!(u64_to_color(0x1_0000_0000), None);
}

#[test]
fn the_current_file_is_found_by_its_number() {
    let mut files = vec![
        File::new(String::from("a"), vec![]),
        File::new(String::from("b"), vec![]),
    ];
    assert_eq!(get_current_file(None, &files), Ok(None));
    assert_eq!(get_current_file(Some(1), &files).unwrap().unwrap().path, "b");
    assert_eq!(
        get_current_file(Some(2), &files),
        Err(ProgramError {
            raw: RawProgramError::InvalidFileIndex { file_index: 2, num_of_files: 2 }
        })
    );
    get_current_file_mut(Some(0), &mut files).unwrap().unwrap().scroll_x = 9;
    assert_eq!(files[0].scroll_x, 9);
    assert_eq!(files[1].scroll_x, 0);
    assert!(matches!(get_current_file_mut(None, &mut files), Ok(None)));
    assert!(matches!(
        get_current_file_mut(Some(5), &mut files),
        Err(ProgramError {
            raw: RawProgramError::InvalidFileIndex { file_index: 5, num_of_files: 2 }
        })
    ));
}

#[test]
fn err_wraps_the_raw_error() {
    let r: Result<u8, ProgramError> = err(RawProgramError::SettingsAreNotAnObject);
    assert_eq!(r, Err(ProgramError { raw: RawProgramError::SettingsAreNotAnObject }));
    assert_eq!(
        ProgramError::from(String::from("x")),
        ProgramError { raw: RawProgramError::Message(String::from("x")) }
    );
    assert_eq!(
        ProgramError::from(RawProgramError::WIP { details: String::from("d") }).raw,
        RawProgramError::WIP { details: String::from("d") }
    );
}

#[test]
fn chars_of_gives_the_characters() {
    assert_eq!(chars_of("a\u{e9}b"), vec!['a', '\u{e9}', 'b']);
    assert_eq!(chars_of(""), Vec::<char>::new());
}

#[test]
fn no_key_is_pressed_at_the_start() {
    let keys = KeysPressed::new();
    assert!(!keys.shift_pressed && !keys.control_pressed && !keys.alt_pressed);
}

#[test]
fn frame_timing_settings_have_names() {
    assert_eq!(FrameTimingSetting::VSync.get_type(), "VSync");
    assert_eq!(FrameTimingSetting::Maxxed(5).get_type(), "Maxxed");
    assert_eq!(FrameTimingSetting::Off.get_type(), "None");
}

#[test]
fn numbers_are_written_in_base_ten() {
    assert_eq!(decimal_text(0), "0");
    assert_eq!(decimal_text(7), "7");
    assert_eq!(decimal_text(10), "10");
    assert_eq!(decimal_text(4096), "4096");
    assert_eq!(decimal_text(1234567890), "1234567890");
    assert_eq!(decimal_text(usize::MAX), usize::MAX.to_string());
}

#[test]
fn every_error_says_what_went_wrong() {
    let text = |raw: RawProgramError| ProgramError { raw }.to_text();
    let source = IoError { kind: IoErrorKind::NotFound, message: String::from("not found") };
    assert_eq!(
        text(RawProgramError::InvalidFileIndex { file_index: 3, num_of_files: 0 }),
        "Current file num is 3 but there no files open"
    );
    assert_eq!(
        text(RawProgramError::InvalidFileIndex { file_index: 12, num_of_files: 1 }),
        "Current file num is 12 but there is only 1 file open"
    );
    assert_eq!(
        text(RawProgramError::InvalidFileIndex { file_index: 5, num_of_files: 4 }),
        "Current file num is 5 but there are only 4 files open"
    );
    assert_eq!(
        text(RawProgramError::InvalidIndex { index: 9, len: 3 }),
        "index 9 lies outside a length of 3"
    );
    assert_eq!(
        text(RawProgramError::UnsupportedInput { details: String::from("unknown keycode") }),
        "unsupported input: unknown keycode"
    );
    assert_eq!(
        text(RawProgramError::SettingsAreNotAnObject),
        "Settings file is not an hjson object"
    );
    assert_eq!(
        text(RawProgramError::CouldNotLoadFile {
            file_path: String::from("a.txt"),
            source: source.clone(),
        }),
        "Failed to read file \"a.txt\": not found"
    );
    assert_eq!(
        text(RawProgramError::CouldNotSaveFile { file_path: String::from("b.txt"), source }),
        "Failed to write file \"b.txt\": not found"
    );
    assert_eq!(
        text(RawProgramError::SerdeError(String::from("line 2"))),
        "serde_hjson::Error: line 2"
    );
    assert_eq!(text(RawProgramError::Message(String::from("plain"))), "plain");
    assert_eq!(text(RawProgramError::WIP { details: String::from("later") }), "WIP: later");
}
