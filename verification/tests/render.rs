use text_editor::errors::{IoError, IoErrorKind, ProgramError, RawProgramError};
use text_editor::fns::get_file_exists;
use text_editor::program_data::Cursor;
use text_editor::render::{
    clamp_to_section, get_char_texture_index, get_selection_spans, get_spritesheet_src_from_index,
    Rect, Span,
};
use text_editor::settings::{
    get_setting_borrowed, load_raw_settings, load_settings, ProgramSettings,
};

fn lines(text: &[&str]) -> Vec<Vec<char>> {
    text.iter().map(|line| line.chars().collect()).collect()
}

fn failure(kind: IoErrorKind) -> IoError {
    IoError { kind, message: String::from("failed") }
}

#[test]
fn a_rectangle_inside_its_section_is_only_moved() {
    let section = Rect { x: 10, y: 36, width: 100, height: 50 };
    let (src, dest) = clamp_to_section(&Rect { x: 5, y: 6, width: 20, height: 10 }, &section);
    assert_eq!(src, Rect { x: 0, y: 0, width: 20, height: 10 });
    assert_eq!(dest, Rect { x: 15, y: 42, width: 20, height: 10 });
}

#[test]
fn a_rectangle_is_cut_at_the_edges_of_its_section() {
    let section = Rect { x: 10, y: 36, width: 100, height: 50 };
    let (src, dest) = clamp_to_section(&Rect { x: -5, y: 45, width: 20, height: 10 }, &section);
    assert_eq!(src, Rect { x: 5, y: 0, width: 15, height: 5 });
    assert_eq!(dest, Rect { x: 10, y: 81, width: 15, height: 5 });
    let (src, dest) = clamp_to_section(&Rect { x: 95, y: -3, width: 20, height: 10 }, &section);
    assert_eq!(src, Rect { x: 0, y: 3, width: 5, height: 7 });
    assert_eq!(dest, Rect { x: 105, y: 36, width: 5, height: 7 });
}

#[test]
fn a_rectangle_outside_its_section_is_empty() {
    let section = Rect { x: 0, y: 0, width: 100, height: 50 };
    let (src, dest) = clamp_to_section(&Rect { x: 200, y: 10, width: 20, height: 10 }, &section);
    assert_eq!((src.width, dest.width), (0, 0));
    assert_eq!((src.height, dest.height), (10, 10));
    let (_, dest) = clamp_to_section(&Rect { x: 10, y: -30, width: 20, height: 10 }, &section);
    assert_eq!(dest.height, 0);
}

#[test]
fn sprites_lie_row_by_row() {
    assert_eq!(
        get_spritesheet_src_from_index(64, 0, 16, 8),
        Rect { x: 0, y: 0, width: 16, height: 8 }
    );
    assert_eq!(
        get_spritesheet_src_from_index(64, 6, 16, 8),
        Rect { x: 32, y: 8, width: 16, height: 8 }
    );
    assert_eq!(
        get_spritesheet_src_from_index(70, 11, 16, 8),
        Rect { x: 48, y: 16, width: 16, height: 8 }
    );
}

#[test]
fn nothing_selected_gives_no_span() {
    let cursor = Cursor { x: 1, y: 0, wanted_x: 1, selection_start: None };
    assert_eq!(get_selection_spans(&cursor, &lines(&["abc"])), Ok(vec![]));
}

#[test]
fn a_selection_on_one_line_is_one_span() {
    let contents = lines(&["abcdef"]);
    let forward = Cursor { x: 4, y: 0, wanted_x: 4, selection_start: Some((1, 0)) };
    assert_eq!(
        get_selection_spans(&forward, &contents),
        Ok(vec![Span { from: 1, to: 4, y: 0 }])
    );
    let backward = Cursor { x: 1, y: 0, wanted_x: 1, selection_start: Some((4, 0)) };
    assert_eq!(
        get_selection_spans(&backward, &contents),
        Ok(vec![Span { from: 1, to: 4, y: 0 }])
    );
}

#[test]
fn a_selection_over_lines_covers_the_line_breaks() {
    let contents = lines(&["abc", "", "defgh", "ij"]);
    let cursor = Cursor { x: 1, y: 3, wanted_x: 1, selection_start: Some((2, 0)) };
    let expected = vec![
        Span { from: 2, to: 4, y: 0 },
        Span { from: 0, to: 1, y: 1 },
        Span { from: 0, to: 6, y: 2 },
        Span { from: 0, to: 1, y: 3 },
    ];
    assert_eq!(get_selection_spans(&cursor, &contents), Ok(expected.clone()));
    let reversed = Cursor { x: 2, y: 0, wanted_x: 2, selection_start: Some((1, 3)) };
    assert_eq!(get_selection_spans(&reversed, &contents), Ok(expected));
}

#[test]
fn a_selection_outside_the_text_is_an_invalid_index() {
    let contents = lines(&["abc"]);
    let cursor = Cursor { x: 1, y: 0, wanted_x: 1, selection_start: Some((0, 2)) };
    assert_eq!(
        get_selection_spans(&cursor, &contents),
        Err(ProgramError { raw: RawProgramError::InvalidIndex { index: 2, len: 1 } })
    );
    let cursor = Cursor { x: 5, y: 0, wanted_x: 5, selection_start: None };
    assert_eq!(
        get_selection_spans(&cursor, &contents),
        Err(ProgramError { raw: RawProgramError::InvalidIndex { index: 5, len: 3 } })
    );
}

#[test]
fn only_the_first_256_characters_have_a_texture() {
    assert_eq!(get_char_texture_index('a'), Ok(97));
    assert_eq!(get_char_texture_index('\u{ff}'), Ok(255));
    assert_eq!(
        get_char_texture_index('\u{100}'),
        Err(ProgramError {
            raw: RawProgramError::WIP { details: String::from("cannot render char") }
        })
    );
}

#[test]
fn a_file_that_was_not_found_is_not_there() {
    assert_eq!(get_file_exists(Ok(())), Ok(true));
    assert_eq!(get_file_exists(Err(failure(IoErrorKind::NotFound))), Ok(false));
    assert_eq!(
        get_file_exists(Err(failure(IoErrorKind::PermissionDenied))),
        Err(failure(IoErrorKind::PermissionDenied))
    );
}

#[test]
fn the_settings_file_is_read_only_if_it_is_there() {
    assert_eq!(
        load_raw_settings("s.hjson", Ok(()), || Ok(String::from("{}"))),
        Ok(Some(String::from("{}")))
    );
    assert_eq!(
        load_raw_settings("s.hjson", Err(failure(IoErrorKind::NotFound)), || -> Result<
            String,
            IoError,
        > { panic!("must not be read") }),
        Ok(None)
    );
    let expected = Err(ProgramError {
        raw: RawProgramError::CouldNotLoadFile {
            file_path: String::from("s.hjson"),
            source: failure(IoErrorKind::Other),
        },
    });
    assert_eq!(
        load_raw_settings("s.hjson", Err(failure(IoErrorKind::Other)), || Ok(String::new())),
        expected
    );
    assert_eq!(
        load_raw_settings("s.hjson", Ok(()), || Err(failure(IoErrorKind::Other))),
        expected
    );
}

#[test]
fn settings_fall_back_to_the_defaults() {
    let defaults = ProgramSettings::default();
    assert_eq!(load_settings(Ok(None), defaults.clone()), (defaults.clone(), None));
    let unreadable = ProgramError { raw: RawProgramError::Message(String::from("x")) };
    assert_eq!(
        load_settings(Err(unreadable.clone()), defaults.clone()),
        (defaults.clone(), Some(unreadable))
    );
    let parse = |text: &str| {
        serde_hjson::from_str::<serde_hjson::Value>(text).map_err(|error| error.to_string())
    };
    assert_eq!(
        load_settings(Ok(Some(parse("[]"))), defaults.clone()),
        (
            defaults.clone(),
            Some(ProgramError { raw: RawProgramError::SettingsAreNotAnObject })
        )
    );
    assert_eq!(
        load_settings(Ok(Some(Err(String::from("no hjson")))), defaults.clone()),
        (
            defaults.clone(),
            Some(ProgramError { raw: RawProgramError::SerdeError(String::from("no hjson")) })
        )
    );
    let (read, error) = load_settings(Ok(Some(parse("{ \"font size\": 12 }"))), defaults);
    assert_eq!((read.font_size, error), (12, None));
}

#[test]
fn a_setting_is_borrowed_or_the_default() {
    let root: serde_hjson::Value = serde_hjson::from_str("{ \"name\": \"mono\", \"n\": 3 }").unwrap();
    let as_str = serde_hjson::Value::as_str;
    assert_eq!(get_setting_borrowed(&root, "name", as_str, "string", "d"), "mono");
    assert_eq!(get_setting_borrowed(&root, "n", as_str, "string", "d"), "d");
    assert_eq!(get_setting_borrowed(&root, "missing", as_str, "string", "d"), "d");
}
