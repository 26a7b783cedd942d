//! Attachments: their name, their media type and the message that stands for them.

use super::client::MatrixBackend;
use crate::text::{
    after_last, contains_text, first_of, joined, lemma_after_last, lemma_after_last_of_sum,
    lemma_first_of, trim, trimmed,
};
use vstd::prelude::*;

verus! {

/// Whether `c` is an ASCII letter.
pub open spec fn ascii_letter(c: char) -> bool {
    'a' <= c <= 'z' || 'A' <= c <= 'Z'
}

/// Whether Unix and Windows take `path` apart alike. On Windows `\` separates too, a letter and a
/// colon at the front name a drive, and two slashes there begin the name of a share or a device.
pub open spec fn is_portable(path: Seq<char>) -> bool {
    &&& !path.contains('\\')
    &&& !(path.len() >= 2 && path[0] == '/' && path[1] == '/')
    &&& !(path.len() >= 2 && ascii_letter(path[0]) && path[1] == ':')
}

/// Whether `name`, where there is one, is a piece of `path` and not empty.
pub open spec fn is_piece(name: Option<Seq<char>>, path: Seq<char>) -> bool {
    match name {
        Some(name) => name.len() > 0 && contains_text(path, name),
        None => true,
    }
}

/// The last part of `path` on Unix, where `/` separates the parts and empty parts and `.` do not
/// count. A path that ends in `..` or has no part has none.
pub open spec fn file_name(path: Seq<char>) -> Option<Seq<char>>
    decreases path.len(),
{
    let part = after_last(path, '/');
    let rest = path.len() - part.len() - 1;
    if part == ".."@ {
        None
    } else if part.len() == 0 || part == "."@ {
        if 0 <= rest < path.len() {
            file_name(path.take(rest))
        } else {
            None
        }
    } else {
        Some(part)
    }
}

/// `path` with `/` for every `\`.
pub open spec fn slashed(path: Seq<char>) -> Seq<char> {
    path.map_values(
        |c: char|
            if c == '\\' {
                '/'
            } else {
                c
            },
    )
}

/// The end of the part of `path` that begins at `start`, where `/` separates the parts.
pub open spec fn part_end(path: Seq<char>, start: int) -> int {
    if start < path.len() {
        start + first_of(path.skip(start), '/')
    } else {
        path.len() as int
    }
}

/// The length of what names a drive, a share or a device at the front of a path on Windows, where
/// `path` is slashed: `C:`, `//server/share`, `//./device`, `//?/name` or `//?/UNC/server/share`.
pub open spec fn prefix_len(path: Seq<char>) -> int {
    let host = part_end(path, 2);
    let share = part_end(path, host + 1);
    if path.len() >= 2 && path[0] == '/' && path[1] == '/' {
        if path.subrange(2, share) == "?/UNC"@ {
            part_end(path, part_end(path, share + 1) + 1)
        } else if 2 < host && host + 1 < share {
            share
        } else {
            0
        }
    } else if path.len() >= 2 && ascii_letter(path[0]) && path[1] == ':' {
        2
    } else {
        0
    }
}

/// The last part of `path` on Windows, where `/` and `\` separate the parts that follow the drive,
/// the share or the device.
pub open spec fn windows_name(path: Seq<char>) -> Option<Seq<char>> {
    file_name(slashed(path).skip(prefix_len(slashed(path))))
}

/// Whether [`windows_name`] speaks of `path`. After `\\?\` Windows takes `/`, `.` and `..` as they
/// stand; such a path is plain only where it has no `/` and ends in neither a separator nor a dot.
pub open spec fn is_plain(path: Seq<char>) -> bool {
    let front = slashed(path);
    front.len() >= 3 && front[0] == '/' && front[1] == '/' && front[2] == '?' ==> !path.contains(
        '/',
    ) && without_end(path) == path
}

/// The extension of a file of that name: what follows the last dot, unless that dot is the first
/// character. One with a `\` in it is known for no media type, and counts as none.
pub open spec fn extension_of(name: Option<Seq<char>>) -> Option<Seq<char>> {
    match name {
        Some(name) => {
            let end = after_last(name, '.');
            if end.len() + 1 < name.len() && !end.contains('\\') {
                Some(end)
            } else {
                None
            }
        },
        None => None,
    }
}

/// `path` without the separators and dots at its end.
pub open spec fn without_end(path: Seq<char>) -> Seq<char>
    decreases path.len(),
{
    if path.len() > 0 && (path.last() == '/' || path.last() == '\\' || path.last() == '.') {
        without_end(path.drop_last())
    } else {
        path
    }
}

/// The only extension, not empty and without separators, that the file at `path` can have on any
/// platform: what follows the last dot, but for separators and dots at the end.
pub open spec fn possible_extension(path: Seq<char>) -> Option<Seq<char>> {
    let whole = without_end(path);
    let end = after_last(whole, '.');
    if end.len() < whole.len() && !end.contains('/') && !end.contains('\\') {
        Some(end)
    } else {
        None
    }
}

/// The media type that the file at a portable path is guessed to have.
pub uninterp spec fn guessed_type(path: Seq<char>) -> Seq<char>;

/// The media type of files with that extension; of files without one where it is `None`.
pub open spec fn type_by_extension(extension: Option<Seq<char>>) -> Seq<char> {
    match extension {
        Some(extension) => guessed_type("file."@ + extension),
        None => guessed_type(""@),
    }
}

/// Guesses a media type with `mime_guess::from_path(..).first_or_octet_stream()`. The guess for a
/// portable path is named [`guessed_type`]. It goes by the extension alone, as
/// `std::path::Path::extension` gives it, and an extension that is not in the crate's table counts
/// as none; none in the table is empty or holds a separator. So the guess is that by the extension
/// of the name which Unix gives the file or of that which Windows gives it. Of a path that is not
/// plain only this is said, that the guess is by its [`possible_extension`] or for none.
#[verifier::external_body]
fn guess_type(path: &str) -> (r: String)
    ensures
        is_portable(path@) ==> r@ == guessed_type(path@),
        is_plain(path@) ==> r@ == type_by_extension(extension_of(file_name(path@))) || r@
            == type_by_extension(extension_of(windows_name(path@))),
        r@ == type_by_extension(possible_extension(path@)) || r@ == type_by_extension(None),
{
    mime_guess::from_path(path).first_or_octet_stream().to_string()
}

/// The last part of a path, as `std::path::Path::file_name` gives it: separators and `.` at the
/// end do not count, `..` is no name, and on Windows what names a drive, a share or a device is no
/// part. Of a path that is not plain only this is said, that its last part is a piece of it and not
/// empty.
#[verifier::external_body]
fn last_part(path: &str) -> (r: Option<String>)
    ensures
        is_plain(path@) ==> r.deep_view() == file_name(path@) || r.deep_view() == windows_name(
            path@,
        ),
        is_piece(r.deep_view(), path@),
{
    let name = std::path::Path::new(path).file_name()?;
    Some(name.to_str()?.to_string())
}

/// The name to show for a file, where `name` is the last part of its path.
pub open spec fn shown_name(name: Option<Seq<char>>) -> Seq<char> {
    match name {
        Some(name) => if name.len() > 0 {
            name
        } else {
            "attachment"@
        },
        None => "attachment"@,
    }
}

/// Whether `name` is one to show for the file at `path`: its last part on Unix or on Windows, where
/// there is one.
pub open spec fn names_file(name: Seq<char>, path: Seq<char>) -> bool {
    &&& name.len() > 0
    &&& name == shown_name(None) || contains_text(path, name)
    &&& is_plain(path) ==> name == shown_name(file_name(path)) || name == shown_name(
        windows_name(path),
    )
    &&& is_portable(path) ==> name == shown_name(file_name(path))
}

/// Whether `content_type` is a media type for the file at `path`: that by its extension on Unix or
/// on Windows.
pub open spec fn types_file(content_type: Seq<char>, path: Seq<char>) -> bool {
    &&& content_type == type_by_extension(possible_extension(path)) || content_type
        == type_by_extension(None)
    &&& is_plain(path) ==> content_type == type_by_extension(extension_of(file_name(path)))
        || content_type == type_by_extension(extension_of(windows_name(path)))
    &&& is_portable(path) ==> content_type == guessed_type(path) && content_type
        == type_by_extension(extension_of(file_name(path)))
}

/// A portable path is plain, and Unix and Windows see the same last part.
pub proof fn lemma_portable_paths_are_taken_apart_alike(path: Seq<char>)
    requires
        is_portable(path),
    ensures
        is_plain(path),
        windows_name(path) == file_name(path),
{
    lemma_slashed(path);
    assert(path.skip(0) =~= path);
}

proof fn lemma_part_end(path: Seq<char>, start: int)
    requires
        0 <= start,
    ensures
        0 <= part_end(path, start) <= path.len(),
{
    if start < path.len() {
        lemma_first_of(path.skip(start), '/');
    }
}

proof fn lemma_prefix_len(path: Seq<char>)
    ensures
        0 <= prefix_len(path) <= path.len(),
{
    let host = part_end(path, 2);
    let share = part_end(path, host + 1);
    lemma_part_end(path, 2);
    lemma_part_end(path, host + 1);
    lemma_part_end(path, share + 1);
    lemma_part_end(path, part_end(path, share + 1) + 1);
}

proof fn lemma_slashed(path: Seq<char>)
    requires
        !path.contains('\\'),
    ensures
        slashed(path) == path,
{
    assert forall|k: int| 0 <= k < path.len() implies slashed(path)[k] == #[trigger] path[k] by {
        assert(path.contains(path[k]));
    }
    assert(slashed(path) =~= path);
}

/// A file in a directory has the extension of its own name, whichever separator stands before the
/// name and whatever the platform: its media type is that by the extension, and it is shown by its
/// name, or where only `/` separates by what follows the last one.
pub proof fn lemma_file_in_a_directory(
    dir: Seq<char>,
    separator: char,
    name: Seq<char>,
    extension: Seq<char>,
)
    requires
        separator == '/' || separator == '\\',
        !name.contains('/') && !name.contains('\\'),
        extension_of(Some(name)) == Some(extension) && extension.len() > 0,
        is_plain(dir.push(separator) + name),
        prefix_len(slashed(dir.push(separator) + name)) <= dir.len(),
    ensures
        ({
            let path = dir.push(separator) + name;
            &&& windows_name(path) == Some(name)
            &&& file_name(path) == Some(after_last(path, '/'))
            &&& separator == '/' ==> file_name(path) == Some(name)
            &&& forall|content_type: Seq<char>| #[trigger]
                types_file(content_type, path) ==> content_type == type_by_extension(
                    Some(extension),
                )
            &&& forall|shown: Seq<char>| #[trigger]
                names_file(shown, path) ==> shown == name || shown == after_last(path, '/')
        }),
{
    let path = dir.push(separator) + name;
    let front = slashed(path);
    let n = prefix_len(front);
    lemma_prefix_len(front);
    lemma_slashed(name);
    assert(front.skip(n) =~= slashed(dir).skip(n).push('/') + name);
    lemma_after_last_of_sum(slashed(dir).skip(n).push('/'), name, '/');
    assert(after_last(front.skip(n), '/') =~= name);
    lemma_after_last_of_sum(dir.push(separator), name, '/');
    let part = after_last(path, '/');
    lemma_after_last(name, '.');
    assert(name.last() == extension.last());
    assert(extension.contains(extension.last()));
    reveal_strlit(".");
    reveal_strlit("..");
    assert(part.last() == name.last());
    assert("."@.last() == '.' && ".."@.last() == '.');
    let head = after_last(dir.push(separator), '/');
    assert(part == head + name);
    let stem = name.take(name.len() - extension.len() - 1).push('.');
    assert(name == stem + extension);
    assert(part =~= (head + stem) + extension);
    lemma_after_last_of_sum(head + stem, extension, '.');
    assert((head + stem).last() == '.');
    assert(after_last(part, '.') =~= extension);
    assert(extension_of(Some(part)) == Some(extension));
}

/// The caption that goes out with an attachment: a blank one does not.
pub open spec fn caption_sent(caption: Option<Seq<char>>) -> Option<Seq<char>> {
    match caption {
        Some(text) => if trimmed(text).len() > 0 {
            Some(text)
        } else {
            None
        },
        None => None,
    }
}

/// The message that stands for an attachment in the room's history.
pub open spec fn attachment_text(name: Seq<char>, caption: Option<Seq<char>>) -> Seq<char> {
    match caption_sent(caption) {
        Some(text) => "Attachment: "@ + name + " ("@ + text + ")"@,
        None => "Attachment: "@ + name,
    }
}

/// The name to show for a file, where `name` is the last part of its path.
pub fn display_name_of(name: Option<String>) -> (r: String)
    ensures
        r@ == shown_name(name.deep_view()),
        r@.len() > 0,
{
    proof {
        reveal_strlit("attachment");
    }
    match name {
        Some(name) => if name.as_str().unicode_len() > 0 {
            name
        } else {
            "attachment".to_owned()
        },
        None => "attachment".to_owned(),
    }
}

/// The caption that goes out with an attachment.
pub fn caption_to_send(caption: Option<String>) -> (r: Option<String>)
    ensures
        r.deep_view() == caption_sent(caption.deep_view()),
{
    match caption {
        Some(text) => if trim(text.as_str()).unicode_len() > 0 {
            Some(text)
        } else {
            None
        },
        None => None,
    }
}

/// The message that stands for an attachment in the room's history.
pub fn attachment_body(name: &str, caption: &Option<String>) -> (r: String)
    ensures
        r@ == attachment_text(name@, caption.deep_view()),
{
    let head = joined("Attachment: ", name);
    match caption {
        Some(text) => if trim(text.as_str()).unicode_len() > 0 {
            joined(joined(joined(head.as_str(), " (").as_str(), text.as_str()).as_str(), ")")
        } else {
            head
        },
        None => head,
    }
}

impl MatrixBackend {
    /// The media type that the file at `path` is guessed to have.
    pub fn attachment_content_type(path: &str) -> (r: String)
        ensures
            types_file(r@, path@),
    {
        let r = guess_type(path);
        proof {
            if is_portable(path@) {
                lemma_portable_paths_are_taken_apart_alike(path@);
            }
        }
        r
    }

    /// The name to show for the file at `path`.
    pub fn attachment_display_name(path: &str) -> (r: String)
        ensures
            names_file(r@, path@),
    {
        proof {
            if is_portable(path@) {
                lemma_portable_paths_are_taken_apart_alike(path@);
            }
        }
        display_name_of(last_part(path))
    }
}

} // verus!
