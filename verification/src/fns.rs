//! Small helpers that the rest of the library shares.

use vstd::prelude::*;
use crate::document::{splice, texts_of};
use crate::errors::{err, IoError, IoErrorKind, ProgramError, RawProgramError};
use crate::program_data::File;

verus! {

/// Inserts the items of `src`, in order, into `dest` before index `position`.
pub fn insert_all<T: Copy>(src: &[T], dest: &mut Vec<T>, position: usize)
    requires
        position <= old(dest).len(),
    ensures
        final(dest)@ == splice(old(dest)@, position as int, src@),
{
    let mut i: usize = 0;
    while i < src.len()
        invariant
            i <= src.len(),
            position <= old(dest).len(),
            dest.len() == old(dest).len() + i,
            dest@ == old(dest)@.subrange(0, position as int) + src@.subrange(0, i as int)
                + old(dest)@.subrange(position as int, old(dest).len() as int),
        decreases src.len() - i,
    {
        dest.insert(position + i, src[i]);
        i += 1;
    }
    assert(src@.subrange(0, i as int) == src@);
}


/// The lines of `text`: a line ends at a line feed, and a carriage return
/// directly before that line feed belongs to the line ending. A text that
/// ends with a line ending has an empty last line, and the empty text is one
/// empty line.
pub open spec fn lines_of_text(text: Seq<char>) -> Seq<Seq<char>>
    decreases text.len(),
{
    if text.len() == 0 {
        seq![Seq::empty()]
    } else if text.last() == '\n' {
        let before = text.drop_last();
        if before.len() > 0 && before.last() == '\r' {
            lines_of_text(before.drop_last()).push(Seq::empty())
        } else {
            lines_of_text(before).push(Seq::empty())
        }
    } else {
        let lines = lines_of_text(text.drop_last());
        lines.update(lines.len() - 1, lines.last().push(text.last()))
    }
}

/// A text always has a line.
pub proof fn lemma_lines_of_text_nonempty(text: Seq<char>)
    ensures
        lines_of_text(text).len() > 0,
    decreases text.len(),
{
    if text.len() > 0 {
        let before = text.drop_last();
        lemma_lines_of_text_nonempty(before);
        if before.len() > 0 {
            lemma_lines_of_text_nonempty(before.drop_last());
        }
    }
}

/// `String::from_iter` on the characters of `chars`: the string that holds
/// exactly these characters, in order.
#[verifier::external_body]
pub(crate) fn string_from_chars(chars: &Vec<char>) -> (s: String)
    ensures
        s@ == chars@,
{
    String::from_iter(chars.iter())
}

/// Splits `full_str` into its lines.
pub fn split_lines(full_str: &str) -> (lines: Vec<String>)
    ensures
        texts_of(lines@) == lines_of_text(full_str@),
        lines.len() > 0,
{
    let mut lines: Vec<String> = Vec::new();
    let mut current: Vec<char> = Vec::new();
    for c in it: full_str.chars()
        invariant
            it.seq() == full_str@,
            texts_of(lines@).push(current@) == lines_of_text(full_str@.take(it.index() as int)),
    {
        let ghost i = it.index() as int;
        let ghost seen = full_str@.take(i);
        let ghost done = texts_of(lines@);
        proof {
            assert(full_str@.take(i + 1).drop_last() == seen);
            assert(full_str@.take(i + 1).last() == c);
            assert(done.push(current@).last() == current@);
            assert(done.push(current@).drop_last() == done);
        }
        if c == '\n' {
            if current.len() > 0 && current[current.len() - 1] == '\r' {
                proof {
                    assert(lines_of_text(seen).last() == current@);
                    if seen.len() > 0 && seen.last() != '\n' {
                        let shorter = lines_of_text(seen.drop_last());
                        lemma_lines_of_text_nonempty(seen.drop_last());
                        assert(current@ == shorter.last().push(seen.last()));
                        assert(current@.last() == seen.last());
                        assert(current@.drop_last() =~= shorter.last());
                        assert(shorter =~= done.push(current@.drop_last()));
                    }
                }
                current.pop();
            } else {
                proof {
                    if seen.len() > 0 && seen.last() == '\r' {
                        let shorter = lines_of_text(seen.drop_last());
                        lemma_lines_of_text_nonempty(seen.drop_last());
                        assert(done.push(current@).last() == shorter.last().push('\r'));
                        assert(current@.last() == '\r');
                    }
                }
            }
            let ghost finished = current@;
            lines.push(string_from_chars(&current));
            current = Vec::new();
            assert(texts_of(lines@) =~= done.push(finished));
            assert(texts_of(lines@).push(current@) =~= lines_of_text(full_str@.take(i + 1)));
        } else {
            current.push(c);
            assert(texts_of(lines@).push(current@) =~= lines_of_text(full_str@.take(i + 1)));
        }
    }
    assert(full_str@.take(full_str@.len() as int) == full_str@);
    let ghost done = texts_of(lines@);
    lines.push(string_from_chars(&current));
    assert(texts_of(lines@) =~= done.push(current@));
    lines
}

/// `Some` of what `some_fn` gives if `condition` holds, else `None`;
/// `some_fn` is called only if it holds.
pub fn some_if<T>(condition: bool, some_fn: impl FnOnce() -> T) -> (r: Option<T>)
    requires
        condition ==> call_requires(some_fn, ()),
    ensures
        condition ==> (r matches Some(v) && call_ensures(some_fn, (), v)),
        !condition ==> r is None,
{
    if condition {
        Some(some_fn())
    } else {
        None
    }
}

/// Byte number `byte_num` of `input`, counted from the least significant.
pub open spec fn byte_of(input: u64, byte_num: u8) -> u8 {
    ((input >> ((byte_num as u64) * 8) as u64) & 0xFF) as u8
}

/// Byte number `byte_num` of `input`, counted from the least significant.
pub fn get_byte(input: u64, byte_num: u8) -> (byte: u8)
    requires
        byte_num < 8,
    ensures
        byte == byte_of(input, byte_num),
        byte as int == (input as int / vstd::arithmetic::power::pow(256, byte_num as nat)) % 256,
{
    let shift: u64 = (byte_num as u64) * 8;
    assert(((input & (0xFFu64 << shift)) >> shift) == ((input >> shift) & 0xFF)) by (bit_vector)
        requires
            shift < 64,
    ;
    assert(((input >> shift) & 0xFF) < 256) by (bit_vector);
    proof {
        lemma_byte_of_is_digit(input, byte_num);
    }
    ((input & (0xFFu64 << shift)) >> shift) as u8
}

/// A byte of a number is its digit in base 256.
pub proof fn lemma_byte_of_is_digit(input: u64, byte_num: u8)
    requires
        byte_num < 8,
    ensures
        byte_of(input, byte_num) as int == (input as int / vstd::arithmetic::power::pow(
            256,
            byte_num as nat,
        )) % 256,
{
    let shift: u64 = ((byte_num as u64) * 8) as u64;
    assert(((input >> shift) & 0xFF) == (input >> shift) % 256) by (bit_vector);
    vstd::bits::lemma_u64_shr_is_div(input, shift);
    vstd::arithmetic::power2::lemma2_to64();
    vstd::arithmetic::power::lemma_pow_multiplies(2, 8, byte_num as nat);
    vstd::arithmetic::power2::lemma_pow2(8);
    vstd::arithmetic::power2::lemma_pow2(shift as nat);
    assert(8 * (byte_num as nat) == shift as nat) by (nonlinear_arith)
        requires
            shift == byte_num * 8,
    ;
}


/// A colour with its opacity, one byte for each channel.
#[derive(Debug, Clone, Copy, PartialEq, Eq, Structural)]
pub struct Color {
    pub r: u8,
    pub g: u8,
    pub b: u8,
    pub a: u8,
}

/// The number that stands for `color`: red in the lowest byte, then green,
/// blue and the opacity.
pub open spec fn color_value(color: Color) -> int {
    color.r + color.g * 0x100 + color.b * 0x1_0000 + color.a * 0x100_0000
}

/// The colour that a number of at most four bytes stands for; a larger
/// number stands for none.
pub fn u64_to_color(input: u64) -> (color: Option<Color>)
    ensures
        input <= 0xFFFF_FFFF ==> color == Some(
            Color {
                r: byte_of(input, 0),
                g: byte_of(input, 1),
                b: byte_of(input, 2),
                a: byte_of(input, 3),
            },
        ),
        input > 0xFFFF_FFFF ==> color is None,
{
    let make_color = || -> (c: Color)
        ensures
            c == (Color {
                r: byte_of(input, 0),
                g: byte_of(input, 1),
                b: byte_of(input, 2),
                a: byte_of(input, 3),
            }),
        {
            Color {
                r: get_byte(input, 0),
                g: get_byte(input, 1),
                b: get_byte(input, 2),
                a: get_byte(input, 3),
            }
        };
    some_if(input <= 0xFFFF_FFFF, make_color)
}

/// The number that stands for `color`.
pub fn color_to_u64(color: Color) -> (value: u64)
    ensures
        value == color_value(color),
        value <= 0xFFFF_FFFF,
{
    let (r, g, b, a) = (color.r as u64, color.g as u64, color.b as u64, color.a as u64);
    assert((g << 8) == g * 0x100 && (b << 16) == b * 0x1_0000 && (a << 24) == a * 0x100_0000)
        by (bit_vector)
        requires
            g < 256 && b < 256 && a < 256,
    ;
    r + (g << 8) + (b << 16) + (a << 24)
}

/// A colour turned into its number and back is the same colour.
pub proof fn lemma_color_round_trip(color: Color, value: u64)
    requires
        value == color_value(color),
    ensures
        byte_of(value, 0) == color.r,
        byte_of(value, 1) == color.g,
        byte_of(value, 2) == color.b,
        byte_of(value, 3) == color.a,
{
    let (r, g, b, a) = (color.r as u64, color.g as u64, color.b as u64, color.a as u64);
    assert(value == r + g * 0x100 + b * 0x1_0000 + a * 0x100_0000);
    assert(((value >> 0) & 0xFF) == r && ((value >> 8) & 0xFF) == g && ((value >> 16) & 0xFF) == b
        && ((value >> 24) & 0xFF) == a) by (bit_vector)
        requires
            value == r + g * 0x100 + b * 0x1_0000 + a * 0x100_0000,
            r < 256 && g < 256 && b < 256 && a < 256,
    ;
}


/// The error for a "current file" pointer that names no open file.
pub open spec fn invalid_file_index(file_index: usize, num_of_files: usize) -> ProgramError {
    ProgramError { raw: RawProgramError::InvalidFileIndex { file_index, num_of_files } }
}

/// The file that the pointer `current_file_num` names among `files`: none
/// where the pointer is not set, an error where it names no open file.
pub fn get_current_file(current_file_num: Option<usize>, files: &Vec<File>) -> (r: Result<
    Option<&File>,
    ProgramError,
>)
    ensures
        match current_file_num {
            None => r == Ok::<Option<&File>, ProgramError>(None),
            Some(n) => if n < files.len() {
                r == Ok::<Option<&File>, ProgramError>(Some(&files[n as int]))
            } else {
                r == Err::<Option<&File>, ProgramError>(invalid_file_index(n, files.len()))
            },
        },
{
    let current_file_num = match current_file_num {
        Some(n) => n,
        None => { return Ok(None); },
    };
    if current_file_num >= files.len() {
        return err(
            RawProgramError::InvalidFileIndex {
                file_index: current_file_num,
                num_of_files: files.len(),
            },
        );
    }
    Ok(Some(&files[current_file_num]))
}

/// As `get_current_file`, for changing the file: what the caller leaves in
/// the file takes its place in `files`, and no other file changes.
pub fn get_current_file_mut(current_file_num: Option<usize>, files: &mut Vec<File>) -> (r: Result<
    Option<&mut File>,
    ProgramError,
>)
    ensures
        match current_file_num {
            None => r matches Ok(None) && *final(files) == *old(files),
            Some(n) => if n < old(files).len() {
                r matches Ok(Some(file)) && *file == old(files)[n as int] && final(files)@
                    == old(files)@.update(n as int, *final(file))
            } else {
                r matches Err(e) && e == invalid_file_index(n, old(files).len()) && *final(files)
                    == *old(files)
            },
        },
{
    let current_file_num = match current_file_num {
        Some(n) => n,
        None => { return Ok(None); },
    };
    if current_file_num >= files.len() {
        return err(
            RawProgramError::InvalidFileIndex {
                file_index: current_file_num,
                num_of_files: files.len(),
            },
        );
    }
    Ok(Some(&mut files[current_file_num]))
}


/// Whether a file is there, from how the attempt to open it ended: it is
/// there if it was opened, it is not if it was not found, and any other
/// failure is passed on.
pub fn get_file_exists(opened: Result<(), IoError>) -> (r: Result<bool, IoError>)
    ensures
        r == match opened {
            Ok(()) => Ok::<bool, IoError>(true),
            Err(e) => if e.kind == IoErrorKind::NotFound {
                Ok::<bool, IoError>(false)
            } else {
                Err::<bool, IoError>(e)
            },
        },
{
    match opened {
        Ok(()) => Ok(true),
        Err(e) => match e.kind {
            IoErrorKind::NotFound => Ok(false),
            _ => Err(e),
        },
    }
}

} // verus!

