use serde_hjson::Value;
use text_editor::errors::{ProgramError, RawProgramError};
use text_editor::fns::Color;
use text_editor::settings::{
    get_hjson_value, get_setting, get_setting_color, get_setting_defaultless, get_setting_lazy,
    get_setting_string_array, get_settings_from_hjson, get_value_type_name, process_settings,
    split_key, update_settings, ContinueDetails, FrameTimingSetting, ProgramSettings,
};

const SAMPLE: &str = "{
  \"settings version\": 0
  \"background color\": 4278190335
  \"font path\": fonts/mono.ttf
  \"font size\": 18
  \"cursor color\": -1
  \"frame timing\": {
    type: maxxed
    \"max frame time\": 8
  }
  \"continue details\": {
    \"last open files\": [ \"a.txt\", 7, \"dir/b.txt\" ]
  }
  flag: true
  nothing: null
  ratio: 1.5
}";

fn sample() -> Value {
    serde_hjson::from_str(SAMPLE).unwrap()
}

fn parse(text: &str) -> Result<Value, String> {
    serde_hjson::from_str::<Value>(text).map_err(|error| error.to_string())
}

#[test]
fn keys_are_cut_at_slashes() {
    assert_eq!(split_key("a/b c/d"), vec!["a", "b c", "d"]);
    assert_eq!(split_key("plain"), vec!["plain"]);
    assert_eq!(split_key(""), vec![""]);
    assert_eq!(split_key("a//b/"), vec!["a", "", "b", ""]);
}

#[test]
fn values_are_found_by_nested_keys() {
    let root = sample();
    assert_eq!(get_hjson_value(&root, "font size"), Some(&Value::U64(18)));
    assert_eq!(get_hjson_value(&root, "frame timing/max frame time"), Some(&Value::U64(8)));
    assert_eq!(get_hjson_value(&root, "frame timing/missing"), None);
    assert_eq!(get_hjson_value(&root, "missing/type"), None);
    assert_eq!(get_hjson_value(&root, "font size/type"), None);
    assert_eq!(get_hjson_value(&Value::U64(3), "font size"), None);
}

#[test]
fn kinds_of_value_have_names() {
    let root = sample();
    let name = |key: &str| get_value_type_name(get_hjson_value(&root, key).unwrap());
    assert_eq!(get_value_type_name(&root), "Object");
    assert_eq!(name("font size"), "U64");
    assert_eq!(name("cursor color"), "I64");
    assert_eq!(name("ratio"), "F64");
    assert_eq!(name("font path"), "String");
    assert_eq!(name("flag"), "Bool");
    assert_eq!(name("nothing"), "Null");
    assert_eq!(name("continue details/last open files"), "Array");
}

#[test]
fn settings_are_read_with_defaults() {
    let root = sample();
    assert_eq!(get_setting(&root, "font size", Value::as_i64, "i64", 3), 18);
    assert_eq!(get_setting(&root, "font path", Value::as_i64, "i64", 3), 3);
    assert_eq!(get_setting(&root, "missing", Value::as_i64, "i64", 3), 3);
    assert_eq!(get_setting(&root, "cursor color", Value::as_u64, "u64", 3), 3);
    assert_eq!(get_setting_defaultless(&root, "flag", Value::as_bool, "bool"), Some(true));
    assert_eq!(get_setting_defaultless(&root, "flag", Value::as_u64, "u64"), None);
    assert_eq!(get_setting_defaultless(&root, "missing", Value::as_u64, "u64"), None);
    let as_text = |v: &Value| v.as_str().map(str::to_string);
    assert_eq!(
        get_setting_lazy(&root, "font path", as_text, "String", || String::from("d")),
        "fonts/mono.ttf"
    );
    assert_eq!(get_setting_lazy(&root, "flag", as_text, "String", || String::from("d")), "d");
}

#[test]
fn string_arrays_keep_only_strings() {
    let root = sample();
    assert_eq!(
        get_setting_string_array(&root, "continue details/last open files", vec![]),
        vec!["a.txt", "dir/b.txt"]
    );
    assert_eq!(
        get_setting_string_array(&root, "font size", vec![String::from("d")]),
        vec!["d"]
    );
    assert_eq!(get_setting_string_array(&root, "missing", vec![]), Vec::<String>::new());
}

#[test]
fn colors_are_read_from_numbers() {
    let root = sample();
    let default = Color { r: 1, g: 2, b: 3, a: 4 };
    assert_eq!(
        get_setting_color(&root, "background color", default),
        Color { r: 0xFF, g: 0, b: 0, a: 0xFF }
    );
    assert_eq!(get_setting_color(&root, "cursor color", default), default);
    assert_eq!(get_setting_color(&root, "font path", default), default);
    assert_eq!(get_setting_color(&root, "missing", default), default);
    let large: Value = serde_hjson::from_str("{ \"c\": 4294967296 }").unwrap();
    assert_eq!(get_setting_color(&large, "c", default), default);
}

#[test]
fn only_objects_are_settings() {
    assert_eq!(update_settings(sample()), Ok(sample()));
    assert_eq!(
        update_settings(Value::Array(vec![])),
        Err(ProgramError { raw: RawProgramError::SettingsAreNotAnObject })
    );
    let future: Value = serde_hjson::from_str("{ \"settings version\": 9 }").unwrap();
    assert_eq!(update_settings(future.clone()), Ok(future));
}

#[test]
fn a_settings_file_is_read_whole() {
    let defaults = ProgramSettings::default();
    let expected = ProgramSettings {
        frame_timing: FrameTimingSetting::Maxxed(8),
        background_color: Color { r: 0xFF, g: 0, b: 0, a: 0xFF },
        font_path: String::from("fonts/mono.ttf"),
        font_size: 18,
        cursor_color: Color { r: 255, g: 255, b: 255, a: 255 },
        cursor_selection_color: Color { r: 0, g: 31, b: 255, a: 127 },
        continue_details: ContinueDetails {
            last_open_files: vec![String::from("a.txt"), String::from("dir/b.txt")],
        },
    };
    assert_eq!(process_settings(parse(SAMPLE), &defaults), Ok(expected.clone()));
    assert_eq!(get_settings_from_hjson(sample(), &defaults), Ok(expected));
    assert_eq!(process_settings(parse("{}"), &defaults), Ok(defaults.clone()));
}

#[test]
fn frame_timing_kinds_are_read() {
    let defaults = ProgramSettings::default();
    let timing = |text: &str| process_settings(parse(text), &defaults).unwrap().frame_timing;
    assert_eq!(timing("{ \"frame timing\": { \"type\": \"vsync\" } }"), FrameTimingSetting::VSync);
    assert_eq!(timing("{ \"frame timing\": { \"type\": \"none\" } }"), FrameTimingSetting::Off);
    assert_eq!(timing("{ \"frame timing\": { \"type\": \"maxxed\" } }"), FrameTimingSetting::Maxxed(5));
    assert_eq!(
        timing("{ \"frame timing\": { \"type\": \"maxxed\", \"max frame time\": -3 } }"),
        FrameTimingSetting::Maxxed(5)
    );
    assert_eq!(timing("{ \"frame timing\": { \"type\": \"fast\" } }"), FrameTimingSetting::VSync);
    assert_eq!(timing("{ \"frame timing\": { \"type\": 4 } }"), FrameTimingSetting::VSync);
}

#[test]
fn a_text_that_is_no_settings_file_is_refused() {
    let defaults = ProgramSettings::default();
    let broken = parse("{ \"font size\": [");
    assert!(broken.is_err());
    assert!(matches!(
        process_settings(broken, &defaults),
        Err(ProgramError { raw: RawProgramError::SerdeError(_) })
    ));
    assert_eq!(
        process_settings(Err(String::from("line 1")), &defaults),
        Err(ProgramError { raw: RawProgramError::SerdeError(String::from("line 1")) })
    );
    assert_eq!(
        process_settings(parse("[ 1, 2 ]"), &defaults),
        Err(ProgramError { raw: RawProgramError::SettingsAreNotAnObject })
    );
}

#[test]
fn the_default_settings_are_fixed() {
    let defaults = ProgramSettings::default();
    assert_eq!(defaults.frame_timing, FrameTimingSetting::VSync);
    assert_eq!(defaults.background_color, Color { r: 27, g: 33, b: 47, a: 255 });
    assert_eq!(defaults.font_path, "");
    assert_eq!(defaults.font_size, 32);
    assert!(defaults.continue_details.last_open_files.is_empty());
}
