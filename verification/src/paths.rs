//! The path under which a texture that the host has preloaded enters the
//! cache.

use vstd::prelude::*;
use vstd::string::StringExecFns;
use vstd::string::StrSliceExecFns;
use vstd::utf8::{decode_utf8, valid_utf8};

verus! {

/// The byte that ends a line.
pub const NEWLINE: u8 = 10;

/// Whether `end` is where the first line of `data` ends: at the first
/// newline, or at the end of the data if there is none.
pub open spec fn is_line_end(data: Seq<u8>, end: int) -> bool {
    &&& 0 <= end <= data.len()
    &&& forall|i: int| 0 <= i < end ==> data[i] != NEWLINE
    &&& end < data.len() ==> data[end] == NEWLINE
}

/// The first line of `data`, without the newline that ends it.
pub open spec fn first_line(data: Seq<u8>) -> Seq<u8> {
    data.take(choose|end: int| is_line_end(data, end))
}

/// There is one place where the first line ends.
pub proof fn lemma_first_line(data: Seq<u8>, end: int)
    requires
        is_line_end(data, end),
    ensures
        first_line(data) == data.take(end),
{
    let chosen = choose|e: int| is_line_end(data, e);
    assert(is_line_end(data, chosen));
    if chosen < end {
        assert(data[chosen] != NEWLINE);
    } else if end < chosen {
        assert(data[end] != NEWLINE);
    }
}

/// The first line of `data`, without the newline that ends it.
pub fn read_first_line(data: &Vec<u8>) -> (line: Vec<u8>)
    ensures
        line@ == first_line(data@),
{
    let mut line: Vec<u8> = Vec::new();
    let mut i: usize = 0;
    while i < data.len() && data[i] != NEWLINE
        invariant
            i <= data.len(),
            line@ == data@.take(i as int),
            forall|j: int| 0 <= j < i ==> data@[j] != NEWLINE,
        decreases data.len() - i,
    {
        line.push(data[i]);
        assert(data@.take(i as int).push(data@[i as int]) =~= data@.take(i + 1));
        i = i + 1;
    }
    proof {
        lemma_first_line(data@, i as int);
    }
    line
}

/// The text that `String::from_utf8_lossy` makes of the given bytes.
pub uninterp spec fn utf8_lossy(bytes: Seq<u8>) -> Seq<char>;

/// Calls `String::from_utf8_lossy`, which reads the bytes as UTF-8 and puts
/// the replacement character in place of what is not.
///
/// Taken on trust: the text depends on the bytes alone, and where the bytes
/// are valid UTF-8 it is the text that they encode.
#[verifier::external_body]
fn text_of(bytes: &Vec<u8>) -> (text: String)
    ensures
        text@ == utf8_lossy(bytes@),
        valid_utf8(bytes@) ==> text@ == decode_utf8(bytes@),
{
    String::from_utf8_lossy(bytes).into_owned()
}

/// Whether a path ends in a separator, so that a name can follow it as it
/// is. The empty path counts as ending in one.
pub open spec fn ends_in_separator(dir: Seq<char>) -> bool {
    dir.len() == 0 || dir.last() == '/' || dir.last() == '\\'
}

/// The path of the file `name` in the directory `dir`: the two joined, with
/// a `/` between them unless `dir` is empty or ends in a separator.
///
/// The animation runtime joins the path of a page's texture in the same way,
/// so a texture stored under this path is found when the page is created.
pub open spec fn joined(dir: Seq<char>, name: Seq<char>) -> Seq<char> {
    if ends_in_separator(dir) {
        dir + name
    } else {
        dir + seq!['/'] + name
    }
}

/// The path of the file `name` in the directory `dir`.
pub fn texture_path(dir: &str, name: &str) -> (path: String)
    ensures
        path@ == joined(dir@, name@),
{
    let length = dir.unicode_len();
    let mut path = String::from_str(dir);
    if length > 0 {
        let last = dir.get_char(length - 1);
        if last != '/' && last != '\\' {
            proof {
                reveal_strlit("/");
                assert("/"@ =~= seq!['/']);
            }
            path.append("/");
        }
    }
    path.append(name);
    path
}

/// The path under which the texture of an atlas with the given bytes, read
/// from the directory `dir`, enters the cache: the atlas's first line, taken
/// as the name of the texture's file, in that directory.
pub open spec fn preloaded_path(atlas: Seq<u8>, dir: Seq<char>) -> Seq<char> {
    joined(dir, utf8_lossy(first_line(atlas)))
}

/// The path under which a preloaded texture of the atlas enters the cache.
pub fn preloaded_texture_path(atlas: &Vec<u8>, dir: &str) -> (path: String)
    ensures
        path@ == preloaded_path(atlas@, dir@),
{
    let line = read_first_line(atlas);
    let name = text_of(&line);
    texture_path(dir, name.as_str())
}

} // verus!
