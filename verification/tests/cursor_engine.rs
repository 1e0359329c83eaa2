use text_editor::cursor_fns::{
    apply_to_all_cursors, backspace_fn, delete_fn, delete_selected_area,
    handle_cursor_selection_on_move, move_cursor_down_fn, move_cursor_end_fn,
    move_cursor_left_fn, move_cursor_right_fn, move_cursor_up_fn, place_text_fn,
    remove_cursor_duplicates, return_fn, run_fn_at_cursors, CursorFn,
};
use text_editor::errors::{ProgramError, RawProgramError};
use text_editor::program_data::{Cursor, File, KeysPressed, ProgramData};

fn file_with(lines: &[&str], cursors: Vec<Cursor>) -> File {
    let mut file = File::new(
        String::from("notes.txt"),
        lines.iter().map(|line| line.to_string()).collect(),
    );
    file.cursors = cursors;
    file
}

fn cursor_at(x: usize, y: usize) -> Cursor {
    Cursor { x, y, wanted_x: x, selection_start: None }
}

fn text_of(file: &File) -> Vec<String> {
    file.contents.iter().map(|line| line.iter().collect()).collect()
}

#[test]
fn return_at_end_of_line_opens_an_empty_line() {
    let mut file = file_with(&["abc", "de"], vec![cursor_at(3, 0)]);
    let keys = KeysPressed::new();
    assert_eq!(return_fn(&mut file, 0, &keys), Ok(()));
    assert_eq!(text_of(&file), vec!["abc", "", "de"]);
    assert_eq!(file.cursors, vec![cursor_at(0, 1)]);
}

#[test]
fn left_on_two_cursors_leaves_one() {
    let mut file = file_with(&["x"], vec![cursor_at(0, 0), cursor_at(1, 0)]);
    let keys = KeysPressed::new();
    assert_eq!(apply_to_all_cursors(&CursorFn::MoveLeft, &keys, &mut file), Ok(()));
    assert_eq!(file.cursors, vec![cursor_at(0, 0)]);
}

#[test]
fn backspace_at_document_start_changes_nothing() {
    let mut file = file_with(&["abc", "de"], vec![cursor_at(0, 0)]);
    let before = file.clone();
    assert_eq!(backspace_fn(&mut file, 0, &KeysPressed::new()), Ok(()));
    assert_eq!(file, before);
}

#[test]
fn delete_at_document_end_changes_nothing() {
    let mut file = file_with(&["abc", "de"], vec![cursor_at(2, 1)]);
    let before = file.clone();
    assert_eq!(delete_fn(&mut file, 0, &KeysPressed::new()), Ok(()));
    assert_eq!(file, before);
}

#[test]
fn left_then_right_returns() {
    let mut file = file_with(&["abc", "de"], vec![cursor_at(0, 1)]);
    let keys = KeysPressed::new();
    assert_eq!(move_cursor_left_fn(&mut file, 0, &keys), Ok(()));
    assert_eq!(file.cursors, vec![cursor_at(3, 0)]);
    assert_eq!(move_cursor_right_fn(&mut file, 0, &keys), Ok(()));
    assert_eq!(file.cursors, vec![cursor_at(0, 1)]);
}

#[test]
fn insert_then_backspaces_restores_the_line() {
    let mut file = file_with(&["abc", "de"], vec![cursor_at(1, 0)]);
    let text: Vec<char> = "xyz".chars().collect();
    assert_eq!(place_text_fn(&mut file, 0, &text), Ok(()));
    assert_eq!(text_of(&file), vec!["axyzbc", "de"]);
    assert_eq!(file.cursors, vec![cursor_at(4, 0)]);
    for _ in 0..3 {
        assert_eq!(backspace_fn(&mut file, 0, &KeysPressed::new()), Ok(()));
    }
    assert_eq!(text_of(&file), vec!["abc", "de"]);
    assert_eq!(file.cursors, vec![cursor_at(1, 0)]);
}

#[test]
fn vertical_moves_remember_the_wanted_column() {
    let mut file = file_with(&["abcdef", "ab", "abcd"], vec![cursor_at(5, 0)]);
    let keys = KeysPressed::new();
    assert_eq!(move_cursor_down_fn(&mut file, 0, &keys), Ok(()));
    assert_eq!(file.cursors[0], Cursor { x: 2, y: 1, wanted_x: 5, selection_start: None });
    assert_eq!(move_cursor_down_fn(&mut file, 0, &keys), Ok(()));
    assert_eq!(file.cursors[0], Cursor { x: 4, y: 2, wanted_x: 5, selection_start: None });
    assert_eq!(move_cursor_down_fn(&mut file, 0, &keys), Ok(()));
    assert_eq!(file.cursors[0], Cursor { x: 4, y: 2, wanted_x: 5, selection_start: None });
    assert_eq!(move_cursor_up_fn(&mut file, 0, &keys), Ok(()));
    assert_eq!(move_cursor_up_fn(&mut file, 0, &keys), Ok(()));
    assert_eq!(file.cursors[0], Cursor { x: 5, y: 0, wanted_x: 5, selection_start: None });
    assert_eq!(move_cursor_up_fn(&mut file, 0, &keys), Ok(()));
    assert_eq!(file.cursors[0], Cursor { x: 5, y: 0, wanted_x: 5, selection_start: None });
}

#[test]
fn horizontal_moves_cross_line_ends() {
    let mut file = file_with(&["ab", "cd"], vec![cursor_at(2, 0)]);
    let keys = KeysPressed::new();
    assert_eq!(move_cursor_right_fn(&mut file, 0, &keys), Ok(()));
    assert_eq!(file.cursors[0], cursor_at(0, 1));
    assert_eq!(move_cursor_left_fn(&mut file, 0, &keys), Ok(()));
    assert_eq!(file.cursors[0], cursor_at(2, 0));
}

#[test]
fn moves_at_the_document_boundaries_do_nothing() {
    let mut file = file_with(&["ab", "cd"], vec![cursor_at(0, 0)]);
    let keys = KeysPressed::new();
    assert_eq!(move_cursor_left_fn(&mut file, 0, &keys), Ok(()));
    assert_eq!(file.cursors[0], cursor_at(0, 0));
    file.cursors[0] = cursor_at(2, 1);
    assert_eq!(move_cursor_right_fn(&mut file, 0, &keys), Ok(()));
    assert_eq!(file.cursors[0], cursor_at(2, 1));
}

#[test]
fn end_goes_to_the_end_of_the_line() {
    let mut file = file_with(&["abc", "de"], vec![cursor_at(1, 0)]);
    assert_eq!(move_cursor_end_fn(&mut file, 0, &KeysPressed::new()), Ok(()));
    assert_eq!(file.cursors[0], cursor_at(3, 0));
}

#[test]
fn shift_starts_a_selection_and_a_plain_move_clears_it() {
    let mut file = file_with(&["abc"], vec![cursor_at(1, 0)]);
    let shift = KeysPressed { shift_pressed: true, control_pressed: false, alt_pressed: false };
    assert_eq!(move_cursor_right_fn(&mut file, 0, &shift), Ok(()));
    assert_eq!(file.cursors[0], Cursor { x: 2, y: 0, wanted_x: 2, selection_start: Some((1, 0)) });
    assert_eq!(move_cursor_right_fn(&mut file, 0, &shift), Ok(()));
    assert_eq!(file.cursors[0], Cursor { x: 3, y: 0, wanted_x: 3, selection_start: Some((1, 0)) });
    assert_eq!(move_cursor_left_fn(&mut file, 0, &KeysPressed::new()), Ok(()));
    assert_eq!(file.cursors[0], cursor_at(2, 0));
}

#[test]
fn handle_cursor_selection_on_move_keeps_an_anchor() {
    let shift = KeysPressed { shift_pressed: true, control_pressed: false, alt_pressed: false };
    let mut cursor = Cursor { x: 4, y: 2, wanted_x: 4, selection_start: Some((1, 1)) };
    handle_cursor_selection_on_move(&mut cursor, &shift);
    assert_eq!(cursor.selection_start, Some((1, 1)));
    handle_cursor_selection_on_move(&mut cursor, &KeysPressed::new());
    assert_eq!(cursor.selection_start, None);
    handle_cursor_selection_on_move(&mut cursor, &shift);
    assert_eq!(cursor.selection_start, Some((4, 2)));
}

#[test]
fn backspace_removes_the_character_before_the_cursor() {
    let mut file = file_with(&["abc"], vec![cursor_at(2, 0)]);
    assert_eq!(backspace_fn(&mut file, 0, &KeysPressed::new()), Ok(()));
    assert_eq!(text_of(&file), vec!["ac"]);
    assert_eq!(file.cursors[0], cursor_at(1, 0));
}

#[test]
fn backspace_at_line_start_joins_the_lines() {
    let mut file = file_with(&["abc", "de", "f"], vec![cursor_at(0, 1)]);
    assert_eq!(backspace_fn(&mut file, 0, &KeysPressed::new()), Ok(()));
    assert_eq!(text_of(&file), vec!["abcde", "f"]);
    assert_eq!(file.cursors[0], cursor_at(3, 0));
}

#[test]
fn delete_removes_the_character_at_the_cursor() {
    let mut file = file_with(&["abc"], vec![cursor_at(1, 0)]);
    assert_eq!(delete_fn(&mut file, 0, &KeysPressed::new()), Ok(()));
    assert_eq!(text_of(&file), vec!["ac"]);
    assert_eq!(file.cursors[0], cursor_at(1, 0));
}

#[test]
fn delete_at_line_end_joins_the_next_line() {
    let mut file = file_with(&["abc", "de", "f"], vec![cursor_at(3, 0)]);
    assert_eq!(delete_fn(&mut file, 0, &KeysPressed::new()), Ok(()));
    assert_eq!(text_of(&file), vec!["abcde", "f"]);
    assert_eq!(file.cursors[0], cursor_at(3, 0));
}

#[test]
fn return_in_the_middle_splits_the_line() {
    let mut file = file_with(&["abcd"], vec![cursor_at(1, 0)]);
    assert_eq!(return_fn(&mut file, 0, &KeysPressed::new()), Ok(()));
    assert_eq!(text_of(&file), vec!["a", "bcd"]);
    assert_eq!(file.cursors[0], cursor_at(0, 1));
}

#[test]
fn backspace_deletes_a_selection_within_a_line() {
    let mut file = file_with(
        &["abcdef"],
        vec![Cursor { x: 4, y: 0, wanted_x: 4, selection_start: Some((1, 0)) }],
    );
    assert_eq!(backspace_fn(&mut file, 0, &KeysPressed::new()), Ok(()));
    assert_eq!(text_of(&file), vec!["aef"]);
    assert_eq!(file.cursors[0], cursor_at(1, 0));
}

#[test]
fn delete_removes_a_selection_over_several_lines() {
    let mut file = file_with(
        &["abc", "def", "ghi", "jkl"],
        vec![Cursor { x: 1, y: 0, wanted_x: 1, selection_start: Some((2, 2)) }],
    );
    assert_eq!(delete_fn(&mut file, 0, &KeysPressed::new()), Ok(()));
    assert_eq!(text_of(&file), vec!["ai", "jkl"]);
    assert_eq!(file.cursors[0], cursor_at(1, 0));
}

#[test]
fn delete_selected_area_orders_anchor_and_cursor() {
    let mut contents: Vec<Vec<char>> = vec!["abc".chars().collect(), "def".chars().collect()];
    let mut cursor = Cursor { x: 2, y: 1, wanted_x: 2, selection_start: Some((1, 0)) };
    assert_eq!(delete_selected_area(&mut contents, &mut cursor), Ok(()));
    assert_eq!(contents, vec!["af".chars().collect::<Vec<char>>()]);
    assert_eq!(cursor, cursor_at(1, 0));

    let mut untouched: Vec<Vec<char>> = vec!["abc".chars().collect()];
    let mut plain = cursor_at(1, 0);
    assert_eq!(delete_selected_area(&mut untouched, &mut plain), Ok(()));
    assert_eq!(untouched, vec!["abc".chars().collect::<Vec<char>>()]);
    assert_eq!(plain, cursor_at(1, 0));
}

#[test]
fn an_edit_pulls_the_other_cursors_back_into_the_text() {
    let mut file = file_with(&["abc", "de"], vec![cursor_at(0, 1), cursor_at(2, 1)]);
    assert_eq!(backspace_fn(&mut file, 0, &KeysPressed::new()), Ok(()));
    assert_eq!(text_of(&file), vec!["abcde"]);
    assert_eq!(file.cursors[0], cursor_at(3, 0));
    assert_eq!(file.cursors[1], Cursor { x: 2, y: 0, wanted_x: 2, selection_start: None });
}

#[test]
fn a_cursor_number_out_of_range_is_an_invalid_index() {
    let mut file = file_with(&["abc"], vec![cursor_at(0, 0)]);
    let before = file.clone();
    assert_eq!(
        move_cursor_left_fn(&mut file, 3, &KeysPressed::new()),
        Err(ProgramError { raw: RawProgramError::InvalidIndex { index: 3, len: 1 } })
    );
    assert_eq!(file, before);
}

#[test]
fn a_cursor_outside_the_text_is_an_invalid_index() {
    let mut file = file_with(&["abc"], vec![cursor_at(0, 4)]);
    assert_eq!(
        return_fn(&mut file, 0, &KeysPressed::new()),
        Err(ProgramError { raw: RawProgramError::InvalidIndex { index: 4, len: 1 } })
    );
    file.cursors[0] = cursor_at(9, 0);
    assert_eq!(
        place_text_fn(&mut file, 0, &vec!['x']),
        Err(ProgramError { raw: RawProgramError::InvalidIndex { index: 9, len: 3 } })
    );
    file.cursors[0] = Cursor { x: 1, y: 0, wanted_x: 1, selection_start: Some((7, 0)) };
    assert_eq!(
        backspace_fn(&mut file, 0, &KeysPressed::new()),
        Err(ProgramError { raw: RawProgramError::InvalidIndex { index: 7, len: 3 } })
    );
    assert_eq!(text_of(&file), vec!["abc"]);
}

#[test]
fn remove_cursor_duplicates_keeps_the_first_of_each_position() {
    let mut cursors = vec![
        Cursor { x: 1, y: 0, wanted_x: 7, selection_start: None },
        cursor_at(2, 0),
        Cursor { x: 1, y: 0, wanted_x: 1, selection_start: Some((0, 0)) },
        cursor_at(1, 1),
        cursor_at(2, 0),
    ];
    remove_cursor_duplicates(&mut cursors);
    assert_eq!(
        cursors,
        vec![
            Cursor { x: 1, y: 0, wanted_x: 7, selection_start: None },
            cursor_at(2, 0),
            cursor_at(1, 1),
        ]
    );
}

#[test]
fn a_pass_inserts_at_every_cursor() {
    let mut file = file_with(&["ab", "cd"], vec![cursor_at(1, 0), cursor_at(1, 1)]);
    let text: Vec<char> = "xy".chars().collect();
    assert_eq!(
        apply_to_all_cursors(&CursorFn::PlaceText(text), &KeysPressed::new(), &mut file),
        Ok(())
    );
    assert_eq!(text_of(&file), vec!["axyb", "cxyd"]);
    assert_eq!(file.cursors, vec![cursor_at(3, 0), cursor_at(3, 1)]);
}

#[test]
fn a_pass_stops_at_the_first_broken_bound() {
    let mut file = file_with(&["ab"], vec![cursor_at(1, 0), cursor_at(0, 5)]);
    assert_eq!(
        apply_to_all_cursors(&CursorFn::MoveLeft, &KeysPressed::new(), &mut file),
        Err(ProgramError { raw: RawProgramError::InvalidIndex { index: 5, len: 1 } })
    );
    assert_eq!(file.cursors, vec![cursor_at(0, 0), cursor_at(0, 5)]);
}

#[test]
fn every_cursor_stays_in_bounds_over_a_session_of_edits() {
    let mut file = file_with(
        &["abc", "de", ""],
        vec![cursor_at(3, 0), cursor_at(2, 1), cursor_at(0, 2)],
    );
    let keys = KeysPressed::new();
    let steps = vec![
        CursorFn::Backspace,
        CursorFn::Return,
        CursorFn::MoveUp,
        CursorFn::PlaceText(vec!['z']),
        CursorFn::Delete,
        CursorFn::MoveDown,
        CursorFn::MoveEnd,
        CursorFn::Delete,
        CursorFn::Backspace,
        CursorFn::MoveRight,
    ];
    for step in &steps {
        assert_eq!(apply_to_all_cursors(step, &keys, &mut file), Ok(()));
        assert!(!file.contents.is_empty());
        assert!(!file.cursors.is_empty());
        for cursor in &file.cursors {
            assert!(cursor.y < file.contents.len());
            assert!(cursor.x <= file.contents[cursor.y].len());
        }
        for (i, a) in file.cursors.iter().enumerate() {
            for b in file.cursors.iter().skip(i + 1) {
                assert!(a.x != b.x || a.y != b.y);
            }
        }
    }
}

#[test]
fn a_new_file_has_one_cursor_at_the_start() {
    let file = File::new(String::from("a.txt"), vec![String::from("ab"), String::from("")]);
    assert_eq!(file.path, "a.txt");
    assert_eq!(text_of(&file), vec!["ab", ""]);
    assert_eq!(file.cursors, vec![cursor_at(0, 0)]);
    assert_eq!((file.scroll_x, file.scroll_y), (0, 0));
    let empty = File::new(String::from("b.txt"), vec![]);
    assert_eq!(text_of(&empty), vec![""]);
}

fn session_with(file: File) -> ProgramData {
    let mut data = ProgramData::new();
    data.files.push(file);
    data.current_file_num = Some(0);
    data
}

#[test]
fn a_pass_records_the_time_of_the_edit() {
    let mut data = session_with(file_with(&["x"], vec![cursor_at(0, 0), cursor_at(1, 0)]));
    data.cursor_place_timestamp = 3;
    assert_eq!(run_fn_at_cursors(&CursorFn::MoveLeft, &mut data, 0, 41), Ok(()));
    assert_eq!(data.files[0].cursors, vec![cursor_at(0, 0)]);
    assert_eq!(data.cursor_place_timestamp, 41);
}

#[test]
fn a_pass_extends_the_selection_while_shift_is_held() {
    let mut data = session_with(file_with(&["abc"], vec![cursor_at(1, 0)]));
    data.keys_pressed.shift_pressed = true;
    assert_eq!(run_fn_at_cursors(&CursorFn::MoveRight, &mut data, 0, 7), Ok(()));
    assert_eq!(
        data.files[0].cursors,
        vec![Cursor { x: 2, y: 0, wanted_x: 2, selection_start: Some((1, 0)) }]
    );
}

#[test]
fn a_pass_that_is_stopped_records_no_time() {
    let mut data = session_with(file_with(&["ab"], vec![cursor_at(1, 0), cursor_at(0, 5)]));
    data.cursor_place_timestamp = 3;
    assert_eq!(
        run_fn_at_cursors(&CursorFn::MoveLeft, &mut data, 0, 41),
        Err(ProgramError { raw: RawProgramError::InvalidIndex { index: 5, len: 1 } })
    );
    assert_eq!(data.files[0].cursors, vec![cursor_at(0, 0), cursor_at(0, 5)]);
    assert_eq!(data.cursor_place_timestamp, 3);
}

#[test]
fn a_pass_over_a_file_that_is_not_open_is_reported() {
    let mut data = session_with(file_with(&["ab"], vec![cursor_at(1, 0)]));
    let before = data.clone();
    assert_eq!(
        run_fn_at_cursors(&CursorFn::MoveLeft, &mut data, 2, 41),
        Err(ProgramError {
            raw: RawProgramError::InvalidFileIndex { file_index: 2, num_of_files: 1 }
        })
    );
    assert_eq!(data, before);
}
