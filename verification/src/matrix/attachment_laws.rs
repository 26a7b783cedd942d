//! What an attachment is called and sent with.

use super::attachment::{
    attachment_body, caption_to_send, display_name_of, extension_of, file_name, guessed_type,
    is_portable, names_file, types_file,
};
use super::client::MatrixBackend;
use super::protocol::Command;
use super::tasks::{Task, TaskFlow};
use crate::text::{after_last, lemma_after_last_of_sum, trimmed};
use vstd::prelude::*;

verus! {

/// A file is called by its name, and `attachment` where it has none.
pub proof fn lemma_file_is_called_by_its_name(name: Option<String>, r: String)
    requires
        call_ensures(display_name_of, (name,), r),
    ensures
        name is Some && name->0@.len() > 0 ==> r@ == name->0@,
        name is None || name->0@.len() == 0 ==> r@ == "attachment"@,
{
}

/// A caption goes out as it is, unless it is blank.
pub proof fn lemma_blank_caption_stays_behind(caption: Option<String>, r: Option<String>)
    requires
        call_ensures(caption_to_send, (caption,), r),
    ensures
        r is Some <==> caption is Some && trimmed(caption->0@).len() > 0,
        r is Some ==> r->0@ == caption->0@,
{
}

/// What stands for an attachment says its name, and its caption unless that is blank.
pub proof fn lemma_words_for_an_attachment(name: &str, caption: Option<String>, r: String)
    requires
        call_ensures(attachment_body, (name, &caption), r),
    ensures
        caption is Some && trimmed(caption->0@).len() > 0 ==> r@ == "Attachment: "@ + name@ + " ("@
            + caption->0@ + ")"@,
        caption is None || trimmed(caption->0@).len() == 0 ==> r@ == "Attachment: "@ + name@,
{
}

/// A file is sent to the room that is given, with the caption that is given, under a name and a
/// media type of its path, or under the name that is given.
pub proof fn lemma_file_is_sent_to_its_room(
    backend: MatrixBackend,
    room_id: String,
    path: &str,
    caption: Option<String>,
    name: String,
    r: (TaskFlow, Vec<Command>),
    s: (TaskFlow, Vec<Command>),
)
    requires
        call_ensures(MatrixBackend::send_attachment, (&backend, room_id, path, caption), r),
        call_ensures(MatrixBackend::send_named, (&backend, room_id, Some(name), path, caption), s),
    ensures
        r.0.generation == backend.sync_generation,
        s.0.generation == backend.sync_generation,
        r.0.task matches Task::SendFile { room_id: id, name: n, content_type, caption: c } && id@
            == room_id@ && n@.len() > 0 && names_file(n@, path@) && types_file(content_type@, path@)
            && c.deep_view() == caption.deep_view(),
        s.0.task matches Task::SendFile { room_id: id, name: n, content_type, caption: c } && id@
            == room_id@ && (name@.len() > 0 ==> n@ == name@) && types_file(content_type@, path@)
            && c.deep_view() == caption.deep_view(),
{
}

/// Whether every platform takes `path` apart by its slashes alone: it has no backslash, no colon
/// behind its first character, and does not begin with two slashes.
pub open spec fn is_slashed_path(path: Seq<char>) -> bool {
    &&& !path.contains('\\')
    &&& path.len() >= 2 ==> path[1] != ':' && !(path[0] == '/' && path[1] == '/')
}

proof fn lemma_last_part(dir: Seq<char>, name: Seq<char>)
    requires
        name.len() > 0,
        !name.contains('/'),
        name != "."@,
        name != ".."@,
    ensures
        file_name(dir.push('/') + name) == Some(name),
{
    lemma_after_last_of_sum(dir.push('/'), name, '/');
    assert(after_last(dir.push('/') + name, '/') =~= name);
}

/// A file in a directory is called by its own name.
pub proof fn lemma_file_is_called_as_in_its_directory(
    path: &str,
    dir: Seq<char>,
    name: Seq<char>,
    r: String,
)
    requires
        call_ensures(MatrixBackend::attachment_display_name, (path,), r),
        path@ == dir.push('/') + name,
        is_slashed_path(path@),
        name.len() > 0,
        !name.contains('/'),
        name != "."@,
        name != ".."@,
    ensures
        r@ == name,
{
    lemma_last_part(dir, name);
}

/// A file has the media type of its extension: that which a file of any other name with the same
/// extension has.
pub proof fn lemma_extension_gives_the_media_type(
    path: &str,
    dir: Seq<char>,
    stem: Seq<char>,
    extension: Seq<char>,
    r: String,
)
    requires
        call_ensures(MatrixBackend::attachment_content_type, (path,), r),
        path@ == dir.push('/') + (stem.push('.') + extension),
        is_slashed_path(path@),
        stem.len() > 0 && extension.len() > 0,
        !stem.contains('/'),
        !extension.contains('/') && !extension.contains('.'),
    ensures
        r@ == guessed_type("file."@ + extension),
{
    let name = stem.push('.') + extension;
    reveal_strlit(".");
    reveal_strlit("..");
    assert(name.last() == extension.last());
    assert(extension.contains(extension.last()));
    assert("."@.last() == '.' && ".."@.last() == '.');
    if name.contains('/') {
        let k = choose|k: int| 0 <= k < name.len() && name[k] == '/';
        if k < stem.len() {
            assert(stem[k] == '/');
        } else {
            assert(extension[k - stem.len() - 1] == '/');
        }
    }
    lemma_last_part(dir, name);
    lemma_after_last_of_sum(stem.push('.'), extension, '.');
    assert(after_last(name, '.') =~= extension);
    if extension.contains('\\') {
        let k = choose|k: int| 0 <= k < extension.len() && extension[k] == '\\';
        assert(path@[dir.len() + 1 + stem.len() + 1 + k] == '\\');
        assert(path@.contains('\\'));
    }
    assert(extension_of(Some(name)) == Some(extension));
    assert(is_portable(path@));
}

} // verus!
