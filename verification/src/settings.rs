//! The settings that the session reads when it starts.

use vstd::prelude::*;
use vstd::string::StringExecFns;
use crate::errors::{err, IoError, ProgramError, RawProgramError};
use crate::fns::{byte_of, get_file_exists, string_from_chars, u64_to_color, Color};
use crate::hjson::{
    hjson_of, hjsons_of, value_as_array, value_as_i64, value_as_str,
    value_as_u64, value_find, value_kind, Hjson, ValueKind,
};
use crate::document::texts_of;

verus! {

/// What the last session left open, to be opened again.
#[derive(Debug, Clone, PartialEq, Eq)]
pub struct ContinueDetails {
    pub last_open_files: Vec<String>,
}

/// A setting with a fixed set of kinds, each with a name.
pub trait SettingValueEnum {
    /// The name of the kind, as a sequence of characters.
    spec fn kind_name(&self) -> Seq<char>;

    fn get_type(&self) -> (name: String)
        ensures
            name@ == self.kind_name(),
    ;
}

/// How the length of a frame is set.
#[derive(Debug, Clone, Copy, PartialEq, Eq)]
pub enum FrameTimingSetting {
    VSync,
    /// The shortest time that a frame may take, in milliseconds.
    Maxxed(usize),
    /// Frames follow one another without waiting.
    Off,
}

impl SettingValueEnum for FrameTimingSetting {
    open spec fn kind_name(&self) -> Seq<char> {
        match self {
            FrameTimingSetting::VSync => "VSync"@,
            FrameTimingSetting::Maxxed(_) => "Maxxed"@,
            FrameTimingSetting::Off => "None"@,
        }
    }

    fn get_type(&self) -> (name: String) {
        match self {
            FrameTimingSetting::VSync => String::from_str("VSync"),
            FrameTimingSetting::Maxxed(_) => String::from_str("Maxxed"),
            FrameTimingSetting::Off => String::from_str("None"),
        }
    }
}


/// The parts of a key that names a setting inside nested objects: the key
/// is cut at every slash.
pub open spec fn key_parts(full_key: Seq<char>) -> Seq<Seq<char>>
    decreases full_key.len(),
{
    if full_key.len() == 0 {
        seq![Seq::empty()]
    } else if full_key.last() == '/' {
        key_parts(full_key.drop_last()).push(Seq::empty())
    } else {
        let parts = key_parts(full_key.drop_last());
        parts.update(parts.len() - 1, parts.last().push(full_key.last()))
    }
}

/// A key always has a part.
pub proof fn lemma_key_parts_nonempty(full_key: Seq<char>)
    ensures
        key_parts(full_key).len() > 0,
    decreases full_key.len(),
{
    if full_key.len() > 0 {
        lemma_key_parts_nonempty(full_key.drop_last());
    }
}

/// Cuts `full_key` at every slash.
pub fn split_key(full_key: &str) -> (parts: Vec<String>)
    ensures
        texts_of(parts@) == key_parts(full_key@),
        parts.len() > 0,
{
    let mut parts: Vec<String> = Vec::new();
    let mut current: Vec<char> = Vec::new();
    for c in it: full_key.chars()
        invariant
            it.seq() == full_key@,
            texts_of(parts@).push(current@) == key_parts(full_key@.take(it.index() as int)),
    {
        let ghost i = it.index() as int;
        let ghost done = texts_of(parts@);
        proof {
            assert(full_key@.take(i + 1).drop_last() == full_key@.take(i));
            assert(full_key@.take(i + 1).last() == c);
            assert(done.push(current@).last() == current@);
        }
        if c == '/' {
            let ghost finished = current@;
            parts.push(string_from_chars(&current));
            current = Vec::new();
            assert(texts_of(parts@) =~= done.push(finished));
        } else {
            current.push(c);
            assert(texts_of(parts@).push(current@) =~= key_parts(full_key@.take(i + 1)));
        }
    }
    assert(full_key@.take(full_key@.len() as int) == full_key@);
    let ghost done = texts_of(parts@);
    parts.push(string_from_chars(&current));
    assert(texts_of(parts@) =~= done.push(current@));
    parts
}

impl Hjson {
    /// The value found by going down from `self` along `keys`: every key
    /// but the last must lead to an object.
    pub open spec fn lookup(self, keys: Seq<Seq<char>>) -> Option<Hjson>
        decreases keys.len(),
    {
        if keys.len() == 0 {
            None
        } else if keys.len() == 1 {
            self.find(keys[0])
        } else {
            match self.find(keys[0]) {
                Some(next) => if next.kind() == ValueKind::Object {
                    next.lookup(keys.drop_first())
                } else {
                    None
                },
                None => None,
            }
        }
    }

    /// The setting that `full_key` names below `self`.
    pub open spec fn setting(self, full_key: Seq<char>) -> Option<Hjson> {
        self.lookup(key_parts(full_key))
    }
}

/// The name of a kind of value.
pub open spec fn kind_name(kind: ValueKind) -> Seq<char> {
    match kind {
        ValueKind::Null => "Null"@,
        ValueKind::Bool => "Bool"@,
        ValueKind::I64 => "I64"@,
        ValueKind::U64 => "U64"@,
        ValueKind::F64 => "F64"@,
        ValueKind::String => "String"@,
        ValueKind::Array => "Array"@,
        ValueKind::Object => "Object"@,
    }
}

/// The name of the kind of `value`.
pub fn get_value_type_name(value: &serde_hjson::Value) -> (name: String)
    ensures
        name@ == kind_name(hjson_of(*value).kind()),
{
    String::from_str(
        match value_kind(value) {
            ValueKind::Null => "Null",
            ValueKind::Bool => "Bool",
            ValueKind::I64 => "I64",
            ValueKind::U64 => "U64",
            ValueKind::F64 => "F64",
            ValueKind::String => "String",
            ValueKind::Array => "Array",
            ValueKind::Object => "Object",
        },
    )
}

/// The value that `full_key` names below `starting_object`, a key of nested
/// objects with a slash between its parts; `None` if a part names nothing,
/// or if a part before the last names something that is no object.
pub fn get_hjson_value<'a>(starting_object: &'a serde_hjson::Value, full_key: &str) -> (found:
    Option<&'a serde_hjson::Value>)
    ensures
        match found {
            Some(value) => hjson_of(*starting_object).setting(full_key@) == Some(hjson_of(*value)),
            None => hjson_of(*starting_object).setting(full_key@) is None,
        },
{
    let keys = split_key(full_key);
    let ghost parts = key_parts(full_key@);
    let mut current_object: &serde_hjson::Value = starting_object;
    let mut i: usize = 0;
    assert(parts.subrange(0, parts.len() as int) == parts);
    while i < keys.len() - 1
        invariant
            keys.len() > 0,
            i <= keys.len() - 1,
            parts == texts_of(keys@),
            parts == key_parts(full_key@),
            hjson_of(*starting_object).lookup(parts) == hjson_of(*current_object).lookup(
                parts.subrange(i as int, parts.len() as int),
            ),
        decreases keys.len() - i,
    {
        let ghost rest = parts.subrange(i as int, parts.len() as int);
        proof {
            assert(parts.len() == keys.len());
            assert(rest.len() >= 2);
            assert(rest[0] == keys[i as int]@);
            assert(rest.drop_first() =~= parts.subrange(i + 1, parts.len() as int));
        }
        let next_object = match value_find(current_object, keys[i].as_str()) {
            Some(v) => v,
            None => { return None; },
        };
        if value_kind(next_object) != ValueKind::Object {
            return None;
        }
        current_object = next_object;
        i += 1;
    }
    proof {
        let rest = parts.subrange(i as int, parts.len() as int);
        assert(rest.len() == 1);
        assert(rest[0] == keys[i as int]@);
    }
    value_find(current_object, keys[keys.len() - 1].as_str())
}

/// The setting `full_key` as `value_fn` reads it: `None` if there is no
/// such setting, or if `value_fn` does not take it.
pub fn get_setting_defaultless<T>(
    settings: &serde_hjson::Value,
    full_key: &str,
    value_fn: impl FnOnce(&serde_hjson::Value) -> Option<T>,
    value_type_name: &str,
) -> (r: Option<T>)
    requires
        forall|found: &serde_hjson::Value| call_requires(value_fn, (found,)),
    ensures
        match hjson_of(*settings).setting(full_key@) {
            None => r is None,
            Some(setting) => exists|found: &serde_hjson::Value|
                hjson_of(*found) == setting && call_ensures(value_fn, (found,), r),
        },
{
    match get_hjson_value(settings, full_key) {
        Some(found_value) => value_fn(found_value),
        None => None,
    }
}

/// The setting `full_key` as `value_fn` reads it, or `default_value` if
/// there is no such setting or `value_fn` does not take it.
pub fn get_setting<T>(
    settings: &serde_hjson::Value,
    full_key: &str,
    value_fn: impl FnOnce(&serde_hjson::Value) -> Option<T>,
    value_type_name: &str,
    default_value: T,
) -> (r: T)
    requires
        forall|found: &serde_hjson::Value| call_requires(value_fn, (found,)),
    ensures
        match hjson_of(*settings).setting(full_key@) {
            None => r == default_value,
            Some(setting) => exists|found: &serde_hjson::Value, read: Option<T>|
                hjson_of(*found) == setting && call_ensures(value_fn, (found,), read) && r
                    == match read {
                    Some(v) => v,
                    None => default_value,
                },
        },
{
    match get_hjson_value(settings, full_key) {
        Some(found_value) => match value_fn(found_value) {
            Some(v) => v,
            None => default_value,
        },
        None => default_value,
    }
}

/// As `get_setting`, for a setting that is read without being copied.
pub fn get_setting_borrowed<'a, T: ?Sized>(
    settings: &'a serde_hjson::Value,
    full_key: &str,
    value_fn: impl FnOnce(&'a serde_hjson::Value) -> Option<&'a T>,
    value_type_name: &str,
    default_value: &'a T,
) -> (r: &'a T)
    requires
        forall|found: &serde_hjson::Value| call_requires(value_fn, (found,)),
    ensures
        match hjson_of(*settings).setting(full_key@) {
            None => r == default_value,
            Some(setting) => exists|found: &serde_hjson::Value, read: Option<&T>|
                hjson_of(*found) == setting && call_ensures(value_fn, (found,), read) && r
                    == match read {
                    Some(v) => v,
                    None => default_value,
                },
        },
{
    match get_hjson_value(settings, full_key) {
        Some(found_value) => match value_fn(found_value) {
            Some(v) => v,
            None => default_value,
        },
        None => default_value,
    }
}

/// As `get_setting`; the default is made only where it is needed.
pub fn get_setting_lazy<T>(
    settings: &serde_hjson::Value,
    full_key: &str,
    value_fn: impl FnOnce(&serde_hjson::Value) -> Option<T>,
    value_type_name: &str,
    default_value_fn: impl FnOnce() -> T,
) -> (r: T)
    requires
        forall|found: &serde_hjson::Value| call_requires(value_fn, (found,)),
        call_requires(default_value_fn, ()),
    ensures
        match hjson_of(*settings).setting(full_key@) {
            None => call_ensures(default_value_fn, (), r),
            Some(setting) => exists|found: &serde_hjson::Value, read: Option<T>|
                hjson_of(*found) == setting && call_ensures(value_fn, (found,), read) && match read {
                    Some(v) => r == v,
                    None => call_ensures(default_value_fn, (), r),
                },
        },
{
    match get_hjson_value(settings, full_key) {
        Some(found_value) => match value_fn(found_value) {
            Some(v) => v,
            None => default_value_fn(),
        },
        None => default_value_fn(),
    }
}

/// The texts among `items`, in order.
pub open spec fn strings_among(items: Seq<Hjson>) -> Seq<Seq<char>>
    decreases items.len(),
{
    if items.len() == 0 {
        Seq::empty()
    } else {
        match items.last().as_str() {
            Some(text) => strings_among(items.drop_last()).push(text),
            None => strings_among(items.drop_last()),
        }
    }
}

/// The strings of the array that the setting `full_key` holds; what else
/// the array holds is passed over. `default_value` if there is no such
/// setting or it is no array.
pub fn get_setting_string_array(
    settings: &serde_hjson::Value,
    full_key: &str,
    default_value: Vec<String>,
) -> (r: Vec<String>)
    ensures
        match hjson_of(*settings).setting(full_key@) {
            Some(Hjson::Array(items)) => texts_of(r@) == strings_among(items),
            _ => r == default_value,
        },
{
    let items = match get_hjson_value(settings, full_key) {
        Some(found_value) => match value_as_array(found_value) {
            Some(items) => items,
            None => { return default_value; },
        },
        None => { return default_value; },
    };
    let ghost all = hjsons_of(items@);
    let mut strings: Vec<String> = Vec::new();
    let mut i: usize = 0;
    while i < items.len()
        invariant
            i <= items.len(),
            all == hjsons_of(items@),
            texts_of(strings@) == strings_among(all.take(i as int)),
        decreases items.len() - i,
    {
        proof {
            assert(all.take(i + 1).drop_last() == all.take(i as int));
            assert(all.take(i + 1).last() == hjson_of(items[i as int]));
        }
        match value_as_str(&items[i]) {
            Some(text) => {
                let ghost before = texts_of(strings@);
                strings.push(text.to_string());
                assert(texts_of(strings@) =~= before.push(text@));
            },
            None => {},
        }
        i += 1;
    }
    assert(all.take(i as int) == all);
    strings
}

/// The colour that a number of a settings file stands for.
pub open spec fn color_of(number: int) -> Option<Color> {
    if 0 <= number <= 0xFFFF_FFFF {
        Some(
            Color {
                r: byte_of(number as u64, 0),
                g: byte_of(number as u64, 1),
                b: byte_of(number as u64, 2),
                a: byte_of(number as u64, 3),
            },
        )
    } else {
        None
    }
}

/// The colour that the setting `full_key` holds as a number, or
/// `default_value` if there is no such setting or it stands for no colour.
pub fn get_setting_color(settings: &serde_hjson::Value, full_key: &str, default_value: Color) -> (r:
    Color)
    ensures
        r == match hjson_of(*settings).setting(full_key@) {
            Some(setting) => match setting.as_u64() {
                Some(number) => match color_of(number) {
                    Some(color) => color,
                    None => default_value,
                },
                None => default_value,
            },
            None => default_value,
        },
{
    match get_hjson_value(settings, full_key) {
        Some(found_value) => match value_as_u64(found_value) {
            Some(value) => match u64_to_color(value) {
                Some(color) => color,
                None => default_value,
            },
            None => default_value,
        },
        None => default_value,
    }
}


/// What the user has set; the measures of the display that are not whole
/// numbers are kept beside it by the program that draws.
#[derive(Debug, Clone, PartialEq, Eq)]
pub struct ProgramSettings {
    pub frame_timing: FrameTimingSetting,
    pub background_color: Color,
    pub font_path: String,
    pub font_size: u32,
    pub cursor_color: Color,
    pub cursor_selection_color: Color,
    pub continue_details: ContinueDetails,
}

impl Default for ProgramSettings {
    fn default() -> (settings: Self)
        ensures
            settings.frame_timing == FrameTimingSetting::VSync,
            settings.background_color == (Color { r: 27, g: 33, b: 47, a: 255 }),
            settings.font_path@.len() == 0,
            settings.font_size == 32,
            settings.cursor_color == (Color { r: 255, g: 255, b: 255, a: 255 }),
            settings.cursor_selection_color == (Color { r: 0, g: 31, b: 255, a: 127 }),
            settings.continue_details.last_open_files@.len() == 0,
    {
        Self {
            frame_timing: FrameTimingSetting::VSync,
            background_color: Color { r: 27, g: 33, b: 47, a: 255 },
            font_path: String::new(),
            font_size: 32,
            cursor_color: Color { r: 255, g: 255, b: 255, a: 255 },
            cursor_selection_color: Color { r: 0, g: 31, b: 255, a: 127 },
            continue_details: ContinueDetails { last_open_files: Vec::new() },
        }
    }
}

/// The number of versions that a settings file can be brought up from.
pub const SETTINGS_UPDATERS: u64 = 1;

/// Brings `settings` up from version `version` by one version. The only
/// version so far is the latest, so that nothing changes.
fn run_settings_updater(version: u64, settings: serde_hjson::Value) -> (updated: serde_hjson::Value)
    requires
        version < SETTINGS_UPDATERS,
    ensures
        updated == settings,
{
    settings
}

/// Brings the settings of an older version up to date. Settings that are no
/// object are refused. Settings without a version, or with a version that
/// is not known, are left as they are.
pub fn update_settings(settings: serde_hjson::Value) -> (r: Result<
    serde_hjson::Value,
    ProgramError,
>)
    ensures
        match r {
            Ok(updated) => hjson_of(settings).kind() == ValueKind::Object && updated == settings,
            Err(e) => hjson_of(settings).kind() != ValueKind::Object && e@
                == crate::session::Problem::SettingsAreNotAnObject,
        },
{
    if value_kind(&settings) != ValueKind::Object {
        return err(RawProgramError::SettingsAreNotAnObject);
    }
    let read_version = |value: &serde_hjson::Value| -> (version: Option<u64>) {
        value_as_u64(value)
    };
    let mut version: u64 = match get_setting_defaultless(
        &settings,
        "settings version",
        read_version,
        "u64",
    ) {
        Some(v) => v,
        None => { return Ok(settings); },
    };
    let mut updated = settings;
    while version < SETTINGS_UPDATERS
        invariant
            updated == settings,
        decreases SETTINGS_UPDATERS - version,
    {
        updated = run_settings_updater(version, updated);
        version += 1;
    }
    Ok(updated)
}

/// The shortest time of a frame that the settings `root` ask for: five
/// milliseconds where they say nothing or say a negative time.
pub open spec fn max_frame_time_of(root: Hjson) -> usize {
    match root.setting("frame timing/max frame time"@) {
        Some(setting) => match setting.as_i64() {
            Some(n) => if n < 0 {
                5
            } else {
                (n as i64) as usize
            },
            None => 5,
        },
        None => 5,
    }
}

/// The frame timing that the settings `root` ask for; `default` where they
/// name none of the three kinds.
pub open spec fn frame_timing_of(root: Hjson, default: FrameTimingSetting) -> FrameTimingSetting {
    match root.setting("frame timing/type"@) {
        Some(Hjson::String(kind)) => if kind == "vsync"@ {
            FrameTimingSetting::VSync
        } else if kind == "maxxed"@ {
            FrameTimingSetting::Maxxed(max_frame_time_of(root))
        } else if kind == "none"@ {
            FrameTimingSetting::Off
        } else {
            default
        },
        _ => default,
    }
}

/// The colour that the settings `root` hold under `full_key`.
pub open spec fn color_setting(root: Hjson, full_key: Seq<char>, default: Color) -> Color {
    match root.setting(full_key) {
        Some(setting) => match setting.as_u64() {
            Some(number) => match color_of(number) {
                Some(color) => color,
                None => default,
            },
            None => default,
        },
        None => default,
    }
}

/// The size of the font that the settings `root` ask for.
pub open spec fn font_size_of(root: Hjson, default: u32) -> u32 {
    match root.setting("font size"@) {
        Some(setting) => match setting.as_i64() {
            Some(n) => (n as i64) as u32,
            None => default,
        },
        None => default,
    }
}

/// `settings` is what the settings file `root` says, with `defaults` for
/// what it does not say.
pub open spec fn is_settings_of(
    settings: ProgramSettings,
    root: Hjson,
    defaults: ProgramSettings,
) -> bool {
    &&& settings.frame_timing == frame_timing_of(root, defaults.frame_timing)
    &&& settings.background_color == color_setting(
        root,
        "background color"@,
        defaults.background_color,
    )
    &&& settings.font_path@ == match root.setting("font path"@) {
        Some(Hjson::String(path)) => path,
        _ => defaults.font_path@,
    }
    &&& settings.font_size == font_size_of(root, defaults.font_size)
    &&& settings.cursor_color == color_setting(root, "cursor color"@, defaults.cursor_color)
    &&& settings.cursor_selection_color == color_setting(
        root,
        "cursor selection color"@,
        defaults.cursor_selection_color,
    )
    &&& texts_of(settings.continue_details.last_open_files@) == match root.setting(
        "continue details/last open files"@,
    ) {
        Some(Hjson::Array(items)) => strings_among(items),
        _ => Seq::empty(),
    }
}

/// The frame timing that `settings` ask for.
fn get_frame_timing(settings: &serde_hjson::Value, default: FrameTimingSetting) -> (r:
    FrameTimingSetting)
    ensures
        r == frame_timing_of(hjson_of(*settings), default),
{
    let kind = match get_hjson_value(settings, "frame timing/type") {
        Some(found) => match value_as_str(found) {
            Some(text) => text.to_string(),
            None => { return default; },
        },
        None => { return default; },
    };
    if kind == String::from_str("vsync") {
        FrameTimingSetting::VSync
    } else if kind == String::from_str("maxxed") {
        let read_time = |value: &serde_hjson::Value| -> (time: Option<i64>)
            ensures
                match time {
                    Some(n) => hjson_of(*value).as_i64() == Some(n as int),
                    None => hjson_of(*value).as_i64() is None,
                },
            { value_as_i64(value) };
        let mut max_frame_time: i64 = get_setting(
            settings,
            "frame timing/max frame time",
            read_time,
            "i64",
            5,
        );
        if max_frame_time < 0 {
            max_frame_time = 5;
        }
        FrameTimingSetting::Maxxed(#[verifier::truncate] (max_frame_time as usize))
    } else if kind == String::from_str("none") {
        FrameTimingSetting::Off
    } else {
        default
    }
}

/// Reads the settings out of the object `settings`, with `default_settings`
/// for every setting that is missing or of another kind than it should be.
pub fn get_settings_from_hjson(
    settings: serde_hjson::Value,
    default_settings: &ProgramSettings,
) -> (r: Result<ProgramSettings, ProgramError>)
    ensures
        r matches Ok(read) && is_settings_of(read, hjson_of(settings), *default_settings),
{
    let read_size = |value: &serde_hjson::Value| -> (size: Option<i64>)
        ensures
            match size {
                Some(n) => hjson_of(*value).as_i64() == Some(n as int),
                None => hjson_of(*value).as_i64() is None,
            },
        { value_as_i64(value) };
    let read_path = |value: &serde_hjson::Value| -> (path: Option<String>)
        ensures
            match path {
                Some(text) => hjson_of(*value).as_str() == Some(text@),
                None => hjson_of(*value).as_str() is None,
            },
        {
            match value_as_str(value) {
                Some(text) => Some(text.to_string()),
                None => None,
            }
        };
    let default_path = || -> (path: String)
        ensures
            path == default_settings.font_path,
        { default_settings.font_path.clone() };
    let font_size: i64 = get_setting(
        &settings,
        "font size",
        read_size,
        "i64",
        default_settings.font_size as i64,
    );
    let last_open_files = get_setting_string_array(
        &settings,
        "continue details/last open files",
        Vec::new(),
    );
    assert(texts_of(Seq::<String>::empty()) =~= Seq::<Seq<char>>::empty());
    Ok(
        ProgramSettings {
            frame_timing: get_frame_timing(&settings, default_settings.frame_timing),
            background_color: get_setting_color(
                &settings,
                "background color",
                default_settings.background_color,
            ),
            font_path: get_setting_lazy(&settings, "font path", read_path, "String", default_path),
            font_size: #[verifier::truncate]
            (font_size as u32),
            cursor_color: get_setting_color(
                &settings,
                "cursor color",
                default_settings.cursor_color,
            ),
            cursor_selection_color: get_setting_color(
                &settings,
                "cursor selection color",
                default_settings.cursor_selection_color,
            ),
            continue_details: ContinueDetails { last_open_files },
        },
    )
}

/// The settings that a settings file holds, from what its reader made of
/// the text: `parsed_settings` is the value that was read, or what the
/// reader said of a text that is not Hjson. The value must be an object.
pub fn process_settings(
    parsed_settings: Result<serde_hjson::Value, String>,
    default_settings: &ProgramSettings,
) -> (r: Result<ProgramSettings, ProgramError>)
    ensures
        match parsed_settings {
            Err(message) => r matches Err(e) && e@ == crate::session::Problem::SerdeError(
                message@,
            ),
            Ok(value) => if hjson_of(value).kind() == ValueKind::Object {
                r matches Ok(read) && is_settings_of(read, hjson_of(value), *default_settings)
            } else {
                r matches Err(e) && e@ == crate::session::Problem::SettingsAreNotAnObject
            },
        },
{
    let settings = match parsed_settings {
        Ok(v) => v,
        Err(message) => { return err(RawProgramError::SerdeError(message)); },
    };
    let settings = match update_settings(settings) {
        Ok(v) => v,
        Err(e) => { return Err(e); },
    };
    get_settings_from_hjson(settings, default_settings)
}

/// The error for a settings file at `settings_path` that could not be
/// opened or read.
pub open spec fn could_not_load(
    settings_path: Seq<char>,
    error: ProgramError,
    source: IoError,
) -> bool {
    error@ == (crate::session::Problem::CouldNotLoadFile {
        file_path: settings_path,
        source: source@,
    })
}

/// The text of the settings file at `settings_path`, if there is one.
/// `opened` says how the attempt to open the file ended; `read_file` reads
/// it, and is called only if the file is there.
pub fn load_raw_settings(
    settings_path: &str,
    opened: Result<(), IoError>,
    read_file: impl FnOnce() -> Result<String, IoError>,
) -> (r: Result<Option<String>, ProgramError>)
    requires
        opened is Ok ==> call_requires(read_file, ()),
    ensures
        match opened {
            Err(e) => if e.kind == crate::errors::IoErrorKind::NotFound {
                r matches Ok(None)
            } else {
                r matches Err(error) && could_not_load(settings_path@, error, e)
            },
            Ok(()) => exists|read: Result<String, IoError>|
                call_ensures(read_file, (), read) && match read {
                    Ok(text) => r == Ok::<Option<String>, ProgramError>(Some(text)),
                    Err(e) => r matches Err(error) && could_not_load(settings_path@, error, e),
                },
        },
{
    match get_file_exists(opened) {
        Ok(false) => { return Ok(None); },
        Ok(true) => {},
        Err(error) => {
            return err(
                RawProgramError::CouldNotLoadFile {
                    file_path: settings_path.to_string(),
                    source: error,
                },
            );
        },
    }
    match read_file() {
        Ok(raw_settings) => Ok(Some(raw_settings)),
        Err(error) => err(
            RawProgramError::CouldNotLoadFile {
                file_path: settings_path.to_string(),
                source: error,
            },
        ),
    }
}

/// The settings of the session, from what was found of the settings file:
/// no file, a file that could not be read, or what its reader made of the
/// text. The defaults are taken if there is no file, if it could not be
/// read, or if it does not hold settings. In the last two cases the error
/// comes back too, to be shown.
pub fn load_settings(
    found_settings: Result<Option<Result<serde_hjson::Value, String>>, ProgramError>,
    default_settings: ProgramSettings,
) -> (r: (ProgramSettings, Option<ProgramError>))
    ensures
        match found_settings {
            Err(e) => r == (default_settings, Some(e)),
            Ok(None) => r == (default_settings, None::<ProgramError>),
            Ok(Some(Err(message))) => r.0 == default_settings && (r.1 matches Some(e) && e@
                == crate::session::Problem::SerdeError(message@)),
            Ok(Some(Ok(value))) => if hjson_of(value).kind() == ValueKind::Object {
                is_settings_of(r.0, hjson_of(value), default_settings) && r.1 is None
            } else {
                r.0 == default_settings && (r.1 matches Some(e) && e@
                    == crate::session::Problem::SettingsAreNotAnObject)
            },
        },
{
    let parsed_settings = match found_settings {
        Ok(Some(v)) => v,
        Ok(None) => { return (default_settings, None); },
        Err(error) => { return (default_settings, Some(error)); },
    };
    match process_settings(parsed_settings, &default_settings) {
        Ok(settings) => (settings, None),
        Err(error) => (default_settings, Some(error)),
    }
}

} // verus!
