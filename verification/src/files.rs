//! The names of the files that vehicles are kept in.
//!
//! A path is read as it is written, with `/` between its parts. What follows
//! its last slash is the name of its file, whatever that is: a path that
//! ends in a slash names the empty file, not the directory before the slash,
//! and `.` and `..` are names like any other, so that `..` has the stem `.`
//! and an empty extension. Paths of these two shapes are thus read otherwise
//! than the path functions of the standard library read them.

use vstd::prelude::*;
use crate::text::chars_equal;
use crate::text::{
    chars_of, number_text, push_number, push_text, replace, replace_text, slice_chars, text_of,
};

verus! {

/// The formats in which a vehicle is kept.
#[derive(Clone, Copy, Debug, PartialEq, Eq, Structural)]
pub enum FileFormat {
    Yaml,
    Json,
}

/// The position after the last `c` before `to`; zero where there is none.
pub open spec fn after_last(s: Seq<char>, c: char, to: int) -> int
    decreases to,
{
    if to <= 0 || to > s.len() {
        0
    } else if s[to - 1] == c {
        to
    } else {
        after_last(s, c, to - 1)
    }
}

/// The name of the file that a path names: what follows its last slash,
/// and nothing for a path that ends in a slash.
pub open spec fn file_name_of(path: Seq<char>) -> Seq<char> {
    path.skip(after_last(path, '/', path.len() as int))
}

/// Where the extension of a file name starts: after its last point, where
/// that is not its first character. None where the name has no extension.
/// The name `..` counts as the stem `.` with an empty extension.
pub open spec fn extension_start(name: Seq<char>) -> Option<int> {
    let at = after_last(name, '.', name.len() as int);
    if at >= 2 {
        Some(at)
    } else {
        None
    }
}

/// The extension of the file that a path names.
pub open spec fn extension_of(path: Seq<char>) -> Option<Seq<char>> {
    let name = file_name_of(path);
    match extension_start(name) {
        Some(at) => Some(name.skip(at)),
        None => None,
    }
}

/// The name of the file that a path names, without its extension and the
/// point before it.
pub open spec fn stem_of(path: Seq<char>) -> Seq<char> {
    let name = file_name_of(path);
    match extension_start(name) {
        Some(at) => name.take(at - 1),
        None => name,
    }
}

/// The format that the extension of a path tells: `yaml` or `json`.
pub open spec fn format_of(path: Seq<char>) -> Option<FileFormat> {
    match extension_of(path) {
        Some(ext) => if ext == "yaml"@ {
            Some(FileFormat::Yaml)
        } else if ext == "json"@ {
            Some(FileFormat::Json)
        } else {
            None
        },
        None => None,
    }
}

/// The name of the file for the vehicle at position `idx` of those that a
/// list gives, where the list names the file `name`: `name` itself for the
/// first, and for another the stem of `name`, a hyphen, the position, a point
/// and the extension of `name`. None where `name` has no extension.
pub open spec fn numbered_name(name: Seq<char>, idx: nat) -> Option<Seq<char>> {
    if idx == 0 {
        Some(name)
    } else {
        match extension_of(name) {
            Some(ext) => Some(stem_of(name) + seq!['-'] + number_text(idx) + seq!['.'] + ext),
            None => None,
        }
    }
}

fn position_after_last(s: &Vec<char>, c: char) -> (at: usize)
    ensures
        at == after_last(s@, c, s.len() as int),
        at <= s.len(),
{
    let mut to: usize = s.len();
    while to > 0 && s[to - 1] != c
        invariant
            to <= s.len(),
            after_last(s@, c, s.len() as int) == after_last(s@, c, to as int),
        decreases to,
    {
        to -= 1;
    }
    to
}

/// The name of the file that a path names.
pub fn file_name(path: &str) -> (name: Vec<char>)
    ensures
        name@ == file_name_of(path@),
{
    let chars = chars_of(path);
    let at = position_after_last(&chars, '/');
    let name = slice_chars(&chars, at, chars.len());
    assert(chars@.subrange(at as int, chars.len() as int) =~= chars@.skip(at as int));
    name
}

/// The stem and the extension of the file that a path names; no extension
/// where the name has none.
pub fn stem_and_extension(path: &str) -> (r: (Vec<char>, Option<Vec<char>>))
    ensures
        r.0@ == stem_of(path@),
        r.1 is Some <==> extension_of(path@) is Some,
        r.1 matches Some(ext) ==> extension_of(path@) == Some(ext@),
{
    let name = file_name(path);
    let at = position_after_last(&name, '.');
    if at >= 2 {
        let stem = slice_chars(&name, 0, at - 1);
        let ext = slice_chars(&name, at, name.len());
        proof {
            assert(name@.subrange(0, at - 1) =~= name@.take(at - 1));
            assert(name@.subrange(at as int, name.len() as int) =~= name@.skip(at as int));
        }
        (stem, Some(ext))
    } else {
        (name, None)
    }
}

/// The format that the extension of a path tells.
pub fn file_format(filename: &str) -> (r: Option<FileFormat>)
    ensures
        r == format_of(filename@),
{
    let (_, ext) = stem_and_extension(filename);
    match ext {
        Some(ext) => if chars_equal(&ext, &chars_of("yaml")) {
            Some(FileFormat::Yaml)
        } else if chars_equal(&ext, &chars_of("json")) {
            Some(FileFormat::Json)
        } else {
            None
        },
        None => None,
    }
}

/// The name of the file for the vehicle at position `idx` of those that a
/// list gives, where the list names the file `output_file_name`.
pub fn numbered_file_name(output_file_name: &str, idx: usize) -> (r: Option<String>)
    ensures
        r is Some <==> numbered_name(output_file_name@, idx as nat) is Some,
        r matches Some(name) ==> numbered_name(output_file_name@, idx as nat) == Some(name@),
{
    if idx == 0 {
        return Some(text_of(&chars_of(output_file_name)));
    }
    let (stem, ext) = stem_and_extension(output_file_name);
    match ext {
        Some(ext) => {
            let mut out = stem;
            out.push('-');
            push_number(&mut out, idx as u64);
            out.push('.');
            let ghost before = out@;
            let mut k: usize = 0;
            while k < ext.len()
                invariant
                    k <= ext.len(),
                    out@ == before + ext@.take(k as int),
                decreases ext.len() - k,
            {
                out.push(ext[k]);
                k += 1;
                assert(before + ext@.take(k as int) =~= (before + ext@.take(k as int - 1)).push(
                    ext@[k as int - 1],
                ));
            }
            assert(ext@.take(ext.len() as int) =~= ext@);
            assert(out@ =~= stem_of(output_file_name@) + seq!['-'] + number_text(idx as nat)
                + seq!['.'] + ext@);
            Some(text_of(&out))
        },
        None => None,
    }
}

/// The place of the file that a vehicle of the name is written to where
/// none is given: in the directory of vehicles, the name with an underscore
/// for each space, as `yaml`.
pub open spec fn default_vehicle_path(scenario_name: Seq<char>) -> Seq<char> {
    "../../python/fastsim/resources/vehdb/"@ + replace_text(scenario_name, seq![' '], seq!['_'])
        + ".yaml"@
}

/// The place of the file that a vehicle of the name is written to where
/// none is given.
pub fn default_vehicle_file(scenario_name: &str) -> (path: String)
    ensures
        path@ == default_vehicle_path(scenario_name@),
{
    let mut space: Vec<char> = Vec::new();
    space.push(' ');
    let mut underscore: Vec<char> = Vec::new();
    underscore.push('_');
    assert(space@ =~= seq![' ']);
    assert(underscore@ =~= seq!['_']);
    let name = replace(&chars_of(scenario_name), &space, &underscore);
    let mut out: Vec<char> = Vec::new();
    push_text(&mut out, "../../python/fastsim/resources/vehdb/");
    push_text(&mut out, text_of(&name).as_str());
    push_text(&mut out, ".yaml");
    assert(out@ =~= default_vehicle_path(scenario_name@));
    text_of(&out)
}

} // verus!
