//! What the user means by what is typed: accounts, servers and rooms.

use super::identifiers::{
    homeserver_name, identity_of, login_user_id, normalize_room_alias, room_alias_of,
    server_name_fault, sso_server_of, user_id_fault, user_id_for_login, IdFault,
};
use crate::text::{
    after_last, lemma_after_last_of_sum, lemma_trimmed_stays, white_space, without_prefix,
};
use crate::text_laws::lemma_prefix_comes_off;
use vstd::prelude::*;

verus! {

/// A whole user id is taken as it stands; a bare name is made one of matrix.org.
pub proof fn lemma_user_id_for_login(input: &str, r: String)
    requires
        call_ensures(user_id_for_login, (input,), r),
    ensures
        input@.len() > 0 && input@[0] == '@' ==> r@ == input@,
        input@.len() == 0 || input@[0] != '@' ==> r@ == "@"@ + input@ + ":matrix.org"@,
{
}

/// What names no account is refused with what is wrong, and it says whether a user id or a user
/// name was typed; anything else is an account.
pub proof fn lemma_refused_account_says_why(input: Seq<char>)
    ensures
        user_id_fault(login_user_id(input)) is None <==> identity_of(input) is Ok,
        user_id_fault(login_user_id(input)) matches Some(fault) ==> (identity_of(input) matches Err(
            error,
        ) && (input.len() > 0 && input[0] == '@' ==> error == "Invalid user ID format: "@
            + fault.text()) && (input.len() == 0 || input[0] != '@' ==> error
            == "Invalid username format: "@ + fault.text())),
{
}

/// What names no server is refused with what is wrong.
pub proof fn lemma_refused_server_says_why(url: Seq<char>)
    ensures
        homeserver_name(url).len() == 0 ==> (sso_server_of(url) matches Err(error) && error
            == "Invalid homeserver URL. Use https://matrix.org or another Matrix server."@),
        homeserver_name(url).len() > 0 && server_name_fault(homeserver_name(url)) is Some ==> (
        sso_server_of(url) matches Err(error) && error == "Invalid homeserver URL: "@
            + IdFault::InvalidServerName.text()),
        homeserver_name(url).len() > 0 && server_name_fault(homeserver_name(url)) is None
            ==> sso_server_of(url) == Ok::<Seq<char>, Seq<char>>(homeserver_name(url)),
{
}

/// Whether a text has no white space around it and is not empty.
pub open spec fn is_bare(s: Seq<char>) -> bool {
    s.len() > 0 && !white_space(s[0]) && !white_space(s[s.len() - 1])
}

/// A room id or alias is taken as it stands. A name without a server is made an alias of
/// matrix.org, and one with a server is made an alias.
pub proof fn lemma_room_names(text: &str, r: String)
    requires
        call_ensures(normalize_room_alias, (text,), r),
        is_bare(text@),
    ensures
        text@[0] == '#' || text@[0] == '!' ==> r@ == text@,
        text@[0] != '#' && text@[0] != '!' && !"https://"@.is_prefix_of(text@)
            && !"http://"@.is_prefix_of(text@) && text@.contains(':') ==> r@ == "#"@ + text@,
        text@[0] != '#' && text@[0] != '!' && !text@.contains(':') ==> r@ == "#"@ + text@
            + ":matrix.org"@,
{
    reveal_strlit("https://");
    reveal_strlit("http://");
    reveal_strlit("https://matrix.to/#/");
    reveal_strlit("http://matrix.to/#/");
    let s = text@;
    lemma_trimmed_stays(s);
    let secure = "https://"@;
    let plain = "http://"@;
    let secure_link = "https://matrix.to/#/"@;
    let plain_link = "http://matrix.to/#/"@;
    if secure_link.is_prefix_of(s) {
        assert(secure_link == s.subrange(0, secure_link.len() as int));
        assert(s[0] == secure_link[0]);
        assert(s[5] == secure_link[5]);
        assert(s.contains(s[5]));
        assert(secure =~= s.subrange(0, 8)) by {
            assert forall|k: int| 0 <= k < 8 implies secure[k] == s[k] by {
                assert(s[k] == secure_link[k]);
            }
        }
    }
    if plain_link.is_prefix_of(s) {
        assert(plain_link == s.subrange(0, plain_link.len() as int));
        assert(s[0] == plain_link[0]);
        assert(s[4] == plain_link[4]);
        assert(s.contains(s[4]));
        assert(plain =~= s.subrange(0, 7)) by {
            assert forall|k: int| 0 <= k < 7 implies plain[k] == s[k] by {
                assert(s[k] == plain_link[k]);
            }
        }
    }
    if secure.is_prefix_of(s) {
        assert(secure == s.subrange(0, 8));
        assert(s[0] == secure[0]);
        assert(s[5] == secure[5]);
        assert(s.contains(s[5]));
    }
    if plain.is_prefix_of(s) {
        assert(plain == s.subrange(0, 7));
        assert(s[0] == plain[0]);
        assert(s[4] == plain[4]);
        assert(s.contains(s[4]));
    }
}

/// A matrix.to link stands for the room id or alias that it leads to.
pub proof fn lemma_matrix_to_links(room: Seq<char>, secure: bool)
    requires
        is_bare(room),
        room[0] == '#' || room[0] == '!',
    ensures
        secure ==> room_alias_of("https://matrix.to/#/"@ + room) == room,
        !secure ==> room_alias_of("http://matrix.to/#/"@ + room) == room,
{
    reveal_strlit("https://matrix.to/#/");
    reveal_strlit("http://matrix.to/#/");
    let a = "https://matrix.to/#/"@;
    let b = "http://matrix.to/#/"@;
    let link = if secure {
        a + room
    } else {
        b + room
    };
    assert(link[0] == 'h');
    assert(link[link.len() - 1] == room[room.len() - 1]);
    lemma_trimmed_stays(link);
    assert(a[0] == 'h' && b[0] == 'h');
    if a.is_prefix_of(room) {
        assert(a == room.subrange(0, a.len() as int));
        assert(room[0] == a[0]);
    }
    if b.is_prefix_of(room) {
        assert(b == room.subrange(0, b.len() as int));
        assert(room[0] == b[0]);
    }
    lemma_prefix_comes_off(room, a);
    lemma_prefix_comes_off(room, b);
    if secure {
        assert(a =~= link.subrange(0, a.len() as int));
        assert(without_prefix(link, a) == room);
    } else {
        assert(b =~= link.subrange(0, b.len() as int));
        assert(a[4] == 's' && link[4] == ':');
        if a.is_prefix_of(link) {
            assert(a == link.subrange(0, a.len() as int));
            assert(link[4] == a[4]);
        }
        lemma_prefix_comes_off(link, a);
        assert(without_prefix(link, b) == room);
    }
}

/// Another link stands for the alias in its fragment.
pub proof fn lemma_other_links(host: Seq<char>, name: Seq<char>)
    requires
        is_bare(name),
        !name.contains('#'),
        name[0] != '!',
        !"https://matrix.to/#/"@.is_prefix_of("https://"@ + host + "#"@ + name),
    ensures
        room_alias_of("https://"@ + host + "#"@ + name) == "#"@ + name,
{
    reveal_strlit("https://");
    reveal_strlit("http://");
    reveal_strlit("#");
    reveal_strlit("https://matrix.to/#/");
    reveal_strlit("http://matrix.to/#/");
    let link = "https://"@ + host + "#"@ + name;
    assert(link[0] == 'h');
    assert(link[4] == 's');
    assert(link[link.len() - 1] == name[name.len() - 1]);
    lemma_trimmed_stays(link);
    assert("https://"@ =~= link.subrange(0, 8));
    let other = "http://matrix.to/#/"@;
    if other.is_prefix_of(link) {
        assert(other == link.subrange(0, other.len() as int));
        assert(link[4] == other[4]);
    }
    let front = "https://"@ + host + "#"@;
    assert(front.last() == '#');
    lemma_after_last_of_sum(front, name, '#');
    assert(after_last(front, '#').len() == 0);
    assert(after_last(link, '#') =~= name);
    assert(name.contains(name[0]));
}

} // verus!
