//! The name of the foreground process: the file name at the end of an image
//! path given in UTF-16, and its comparison with the configured target.

use vstd::prelude::*;

verus! {

/// The UTF-16 unit of the path separator, a backslash.
pub const SEPARATOR: u16 = 0x5C;

/// The marker that stands for a unit that is no text.
pub const REPLACEMENT: char = '\u{FFFD}';

/// The index at which the file name starts in `path`: just behind the last
/// separator, or 0 where the path holds none.
pub open spec fn file_name_start(path: Seq<u16>) -> int
    decreases path.len(),
{
    if path.len() == 0 {
        0
    } else if path.last() == SEPARATOR {
        path.len() as int
    } else {
        file_name_start(path.drop_last())
    }
}

/// The file name of `path`: what follows its last separator, or all of it.
pub open spec fn file_name_units(path: Seq<u16>) -> Seq<u16> {
    path.subrange(file_name_start(path), path.len() as int)
}

/// Whether `unit` is the first half of a surrogate pair.
pub open spec fn is_leading(unit: u16) -> bool {
    0xD800 <= unit <= 0xDBFF
}

/// Whether `unit` is the second half of a surrogate pair.
pub open spec fn is_trailing(unit: u16) -> bool {
    0xDC00 <= unit <= 0xDFFF
}

/// The character that a surrogate pair stands for.
pub open spec fn pair_char(leading: u16, trailing: u16) -> char {
    (0x1_0000 + (leading - 0xD800) * 0x400 + (trailing - 0xDC00)) as char
}

/// The text of a sequence of UTF-16 units: a unit outside the surrogates is
/// its own character, a leading surrogate with a trailing one behind it is
/// the character of the pair, and every other surrogate is the replacement
/// marker.
pub open spec fn utf16_lossy(units: Seq<u16>) -> Seq<char>
    decreases units.len(),
{
    if units.len() == 0 {
        Seq::empty()
    } else if is_leading(units[0]) && units.len() >= 2 && is_trailing(units[1]) {
        seq![pair_char(units[0], units[1])] + utf16_lossy(units.subrange(2, units.len() as int))
    } else if is_leading(units[0]) || is_trailing(units[0]) {
        seq![REPLACEMENT] + utf16_lossy(units.subrange(1, units.len() as int))
    } else {
        seq![units[0] as char] + utf16_lossy(units.subrange(1, units.len() as int))
    }
}

/// The lower-case form of a text, as `str::to_lowercase` gives it.
pub uninterp spec fn lowercase_of(text: Seq<char>) -> Seq<char>;

/// Whether a foreground process of this name is the target: the name is not
/// empty, and the two are equal once both are in lower case.
pub open spec fn names_match(name: Seq<char>, target: Seq<char>) -> bool {
    name.len() > 0 && lowercase_of(name) == lowercase_of(target)
}

/// Decodes UTF-16 units by `String::from_utf16_lossy`: well-formed units give
/// their characters, and each surrogate without its partner gives the
/// replacement marker.
#[verifier::external_body]
fn decode_utf16(units: &Vec<u16>) -> (text: String)
    ensures
        text@ == utf16_lossy(units@),
{
    String::from_utf16_lossy(units.as_slice())
}

/// Lower-cases a text by `str::to_lowercase`. What the lower case of a text
/// is stays with that function; the result is named after its argument.
#[verifier::external_body]
fn lowercase(text: &str) -> (lower: String)
    ensures
        lower@ == lowercase_of(text@),
{
    text.to_lowercase()
}

/// Finds where the file name starts in an image path.
pub fn find_file_name(path: &Vec<u16>) -> (start: usize)
    ensures
        start == file_name_start(path@),
        start <= path.len(),
{
    let mut end: usize = path.len();
    proof {
        assert(path@.take(end as int) =~= path@);
    }
    while end > 0 && path[end - 1] != SEPARATOR
        invariant
            end <= path.len(),
            file_name_start(path@) == file_name_start(path@.take(end as int)),
        decreases end,
    {
        proof {
            let front = path@.take(end as int);
            assert(front.last() == path@[end - 1]);
            assert(front.drop_last() =~= path@.take(end - 1));
        }
        end = end - 1;
    }
    proof {
        let front = path@.take(end as int);
        if end > 0 {
            assert(front.last() == path@[end - 1]);
        }
    }
    end
}

/// The name of a process from its image path in UTF-16: the text of what
/// follows the last backslash. An empty path, which stands for a process that
/// could not be determined, gives an empty name.
pub fn get_foreground_process(path: &Vec<u16>) -> (name: String)
    ensures
        name@ == utf16_lossy(file_name_units(path@)),
{
    let start = find_file_name(path);
    let mut units: Vec<u16> = Vec::new();
    let mut i: usize = start;
    while i < path.len()
        invariant
            start <= i <= path.len(),
            units@ == path@.subrange(start as int, i as int),
        decreases path.len() - i,
    {
        units.push(path[i]);
        proof {
            assert(units@ =~= path@.subrange(start as int, i + 1));
        }
        i = i + 1;
    }
    decode_utf16(&units)
}

/// Whether a foreground process of this name is the configured target.
pub fn is_target_process(name: &str, target: &str) -> (matches: bool)
    ensures
        matches == names_match(name@, target@),
{
    if name.is_empty() {
        return false;
    }
    let a = lowercase(name);
    let b = lowercase(target);
    a == b
}

} // verus!
