//! Paths and extensions as text: the rules by which the last component of
//! a path and its extension are found, ASCII case folding, and the call
//! into `std::path` that finds the extension.

use vstd::prelude::*;

verus! {

/// The extension that `std::path::Path::extension` finds in a path: the
/// text after the last `.` of the file name, `None` where there is none.
pub uninterp spec fn path_extension_of(path: Seq<char>) -> Option<Seq<char>>;

/// A character with an ASCII capital letter turned into its small letter;
/// every other character unchanged.
pub open spec fn ascii_lower_char(c: char) -> char {
    if 65 <= (c as u32) && (c as u32) <= 90 {
        ((c as u32) + 32) as char
    } else {
        c
    }
}

/// A text with its ASCII capital letters turned into small letters.
pub open spec fn ascii_lowercase(text: Seq<char>) -> Seq<char> {
    text.map_values(|c: char| ascii_lower_char(c))
}

/// A text made of ASCII characters only.
pub open spec fn is_ascii_text(text: Seq<char>) -> bool {
    forall|i: int| 0 <= i < text.len() ==> (#[trigger] text[i] as u32) < 128
}

/// A character that is neither an ASCII capital nor an ASCII small letter.
pub open spec fn is_not_ascii_letter(c: char) -> bool {
    !(65 <= (c as u32) && (c as u32) <= 90) && !(97 <= (c as u32) && (c as u32) <= 122)
}

/// The index of the last occurrence of `c` in a text, or -1 where it has none.
pub open spec fn last_index(text: Seq<char>, c: char) -> int
    decreases text.len(),
{
    if text.len() == 0 {
        -1
    } else if text.last() == c {
        text.len() - 1
    } else {
        last_index(text.drop_last(), c)
    }
}

/// A path whose components are separated by `/` alone on every platform:
/// no `\`, no `:` (drive and prefix marks), and no leading `//` (a network
/// share prefix on some platforms).
pub open spec fn is_portable_path(path: Seq<char>) -> bool {
    &&& forall|i: int| 0 <= i < path.len() ==> #[trigger] path[i] != '\\' && path[i] != ':'
    &&& !(path.len() >= 2 && path[0] == '/' && path[1] == '/')
}

/// The file name of a portable path: its last component, where empty
/// components and `.` components are skipped; `None` where no component is
/// left or the last one is `..`.
pub open spec fn file_name_of(path: Seq<char>) -> Option<Seq<char>>
    decreases path.len(),
{
    let cut = last_index(path, '/');
    let piece = path.subrange(cut + 1, path.len() as int);
    if piece.len() == 0 || piece == seq!['.'] {
        if cut < 0 {
            None
        } else {
            proof {
                lemma_last_index_bounds(path, '/');
            }
            file_name_of(path.subrange(0, cut))
        }
    } else if piece == seq!['.', '.'] {
        None
    } else {
        Some(piece)
    }
}

/// The extension of a file name: the text after its final `.`; `None`
/// where it has no `.`, or where its only `.` is the leading one.
pub open spec fn name_extension(name: Seq<char>) -> Option<Seq<char>> {
    let dot = last_index(name, '.');
    if dot <= 0 {
        None
    } else {
        Some(name.subrange(dot + 1, name.len() as int))
    }
}

/// The extension of a portable path: that of its file name.
pub open spec fn extension_of_path(path: Seq<char>) -> Option<Seq<char>> {
    match file_name_of(path) {
        Some(name) => name_extension(name),
        None => None,
    }
}

/// Calls `std::path::Path::extension` on the path, read back as text (the
/// extension of a path given as UTF-8 text is UTF-8 text). For a portable
/// path it states the documented rule: the file name is the last
/// component (empty and `.` components skipped, none for `..`), and the
/// extension is `None` without a file name, without an embedded `.`, or
/// where the only `.` leads the name; else the text after the final `.`.
/// Paths with `\`, `:` or a leading `//` are left to the name.
#[verifier::external_body]
pub(crate) fn path_extension(path: &str) -> (ext: Option<&str>)
    ensures
        ext.is_some() == path_extension_of(path@).is_some(),
        ext matches Some(e) ==> path_extension_of(path@) == Some(e@),
        is_portable_path(path@) ==> ext.is_some() == extension_of_path(path@).is_some(),
        ext matches Some(e) ==> (is_portable_path(path@) ==> extension_of_path(path@) == Some(
            e@,
        )),
{
    std::path::Path::new(path).extension()?.to_str()
}

/// The last occurrence lies inside the text and holds the character.
pub proof fn lemma_last_index_bounds(text: Seq<char>, c: char)
    ensures
        -1 <= last_index(text, c) < text.len(),
        last_index(text, c) >= 0 ==> text[last_index(text, c)] == c,
    decreases text.len(),
{
    if text.len() > 0 && text.last() != c {
        lemma_last_index_bounds(text.drop_last(), c);
    }
}

/// Lowering yields no capital letter, lowering twice is lowering once, and
/// a character that is not a letter is the lowering of itself alone.
proof fn lemma_lower_char(c: char, d: char)
    ensures
        ascii_lower_char(ascii_lower_char(c)) == ascii_lower_char(c),
        is_not_ascii_letter(d) ==> (ascii_lower_char(c) == d <==> c == d),
{
    if 65 <= (c as u32) && (c as u32) <= 90 {
        assert(((c as u32) + 32) as char as u32 == (c as u32) + 32);
    }
}

/// Lowering a text twice is lowering it once.
proof fn lemma_lowercase_idempotent(text: Seq<char>)
    ensures
        ascii_lowercase(ascii_lowercase(text)) == ascii_lowercase(text),
{
    assert forall|i: int| 0 <= i < text.len() implies ascii_lowercase(ascii_lowercase(text))[i]
        == #[trigger] ascii_lowercase(text)[i] by {
        lemma_lower_char(text[i], text[i]);
    }
    assert(ascii_lowercase(ascii_lowercase(text)) =~= ascii_lowercase(text));
}

/// Lowering a text keeps every character that is not a letter in place.
proof fn lemma_last_index_ignores_case(text: Seq<char>, c: char)
    requires
        is_not_ascii_letter(c),
    ensures
        last_index(ascii_lowercase(text), c) == last_index(text, c),
    decreases text.len(),
{
    if text.len() > 0 {
        lemma_lower_char(text.last(), c);
        assert(ascii_lowercase(text).last() == ascii_lower_char(text.last()));
        assert(ascii_lowercase(text).drop_last() =~= ascii_lowercase(text.drop_last()));
        lemma_last_index_ignores_case(text.drop_last(), c);
    }
}

/// Lowering and cutting out a range can be done in either order.
proof fn lemma_lowercase_subrange(text: Seq<char>, from: int, to: int)
    requires
        0 <= from <= to <= text.len(),
    ensures
        ascii_lowercase(text.subrange(from, to)) == ascii_lowercase(text).subrange(from, to),
{
    assert(ascii_lowercase(text.subrange(from, to)) =~= ascii_lowercase(text).subrange(from, to));
}

/// A text lowers to one of the marks `.` or `..` exactly when it is that mark.
proof fn lemma_lowered_mark(text: Seq<char>, mark: Seq<char>)
    requires
        forall|i: int| 0 <= i < mark.len() ==> is_not_ascii_letter(#[trigger] mark[i]),
    ensures
        (ascii_lowercase(text) == mark) <==> (text == mark),
{
    if ascii_lowercase(text) == mark {
        assert forall|i: int| 0 <= i < text.len() implies #[trigger] text[i] == mark[i] by {
            lemma_lower_char(text[i], mark[i]);
            assert(ascii_lowercase(text)[i] == mark[i]);
        }
        assert(text =~= mark);
    }
    if text == mark {
        assert forall|i: int| 0 <= i < text.len() implies #[trigger] ascii_lowercase(text)[i]
            == mark[i] by {
            lemma_lower_char(text[i], mark[i]);
        }
        assert(ascii_lowercase(text) =~= mark);
    }
}

/// The file name of a lowered path is the lowered file name.
proof fn lemma_file_name_ignores_case(path: Seq<char>)
    ensures
        file_name_of(ascii_lowercase(path)) == match file_name_of(path) {
            Some(name) => Some(ascii_lowercase(name)),
            None => None,
        },
    decreases path.len(),
{
    let lower = ascii_lowercase(path);
    lemma_last_index_ignores_case(path, '/');
    lemma_last_index_bounds(path, '/');
    let cut = last_index(path, '/');
    let piece = path.subrange(cut + 1, path.len() as int);
    lemma_lowercase_subrange(path, cut + 1, path.len() as int);
    assert(lower.subrange(cut + 1, lower.len() as int) == ascii_lowercase(piece));
    lemma_lowered_mark(piece, seq!['.']);
    lemma_lowered_mark(piece, seq!['.', '.']);
    if piece.len() == 0 || piece == seq!['.'] {
        if cut >= 0 {
            lemma_lowercase_subrange(path, 0, cut);
            lemma_file_name_ignores_case(path.subrange(0, cut));
            assert(lower.subrange(0, cut) == ascii_lowercase(path.subrange(0, cut)));
        }
    }
}

/// The extension of a lowered name is the lowered extension.
proof fn lemma_name_extension_ignores_case(name: Seq<char>)
    ensures
        name_extension(ascii_lowercase(name)) == match name_extension(name) {
            Some(ext) => Some(ascii_lowercase(ext)),
            None => None,
        },
{
    lemma_last_index_ignores_case(name, '.');
    lemma_last_index_bounds(name, '.');
    let dot = last_index(name, '.');
    if dot > 0 {
        lemma_lowercase_subrange(name, dot + 1, name.len() as int);
    }
}

/// Lowering a path lowers its extension and changes nothing else about it.
pub proof fn lemma_extension_ignores_case(path: Seq<char>)
    ensures
        extension_of_path(ascii_lowercase(path)) == match extension_of_path(path) {
            Some(ext) => Some(ascii_lowercase(ext)),
            None => None,
        },
{
    lemma_file_name_ignores_case(path);
    if let Some(name) = file_name_of(path) {
        lemma_name_extension_ignores_case(name);
    }
}

/// Lowering the extension of a path gives the same text whether or not
/// the path was lowered first.
pub proof fn lemma_lowered_extension_of_lowered_path(path: Seq<char>)
    ensures
        match (extension_of_path(path), extension_of_path(ascii_lowercase(path))) {
            (Some(e), Some(f)) => ascii_lowercase(e) == ascii_lowercase(f),
            (None, None) => true,
            _ => false,
        },
{
    lemma_extension_ignores_case(path);
    if let Some(e) = extension_of_path(path) {
        lemma_lowercase_idempotent(e);
    }
}

/// What is cut out of an ASCII text is ASCII.
proof fn lemma_ascii_subrange(text: Seq<char>, from: int, to: int)
    requires
        is_ascii_text(text),
        0 <= from <= to <= text.len(),
    ensures
        is_ascii_text(text.subrange(from, to)),
{
    assert forall|i: int| 0 <= i < to - from implies (#[trigger] text.subrange(from, to)[i] as u32)
        < 128 by {
        assert(text.subrange(from, to)[i] == text[from + i]);
    }
}

/// The file name of an ASCII path is ASCII.
proof fn lemma_file_name_is_ascii(path: Seq<char>)
    requires
        is_ascii_text(path),
    ensures
        file_name_of(path) matches Some(name) ==> is_ascii_text(name),
    decreases path.len(),
{
    lemma_last_index_bounds(path, '/');
    let cut = last_index(path, '/');
    let piece = path.subrange(cut + 1, path.len() as int);
    lemma_ascii_subrange(path, cut + 1, path.len() as int);
    if (piece.len() == 0 || piece == seq!['.']) && cut >= 0 {
        lemma_ascii_subrange(path, 0, cut);
        lemma_file_name_is_ascii(path.subrange(0, cut));
    }
}

/// The extension of an ASCII path is ASCII.
pub proof fn lemma_extension_is_ascii(path: Seq<char>)
    requires
        is_ascii_text(path),
    ensures
        extension_of_path(path) matches Some(ext) ==> is_ascii_text(ext),
{
    lemma_file_name_is_ascii(path);
    if let Some(name) = file_name_of(path) {
        lemma_last_index_bounds(name, '.');
        let dot = last_index(name, '.');
        if dot > 0 {
            lemma_ascii_subrange(name, dot + 1, name.len() as int);
        }
    }
}

} // verus!
