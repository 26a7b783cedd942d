//! User, room and server identifiers, and how what the user types becomes one.

use crate::text::{
    after_first, after_first_char, after_last, after_last_char, before_first, before_first_char,
    contains_char, first_of, joined, lemma_after_last_is_suffix, lemma_first_of,
    lemma_trimmed_ends, lemma_trimmed_stays, lemma_without_prefix_is_suffix, starts_with,
    starts_with_char, trim, trim_end_matches_char, trim_start_matches, trimmed, white_space,
    without_prefix, without_suffix_char,
};
use super::types::{outcome, text_view};
use matrix_sdk::ruma::{RoomId, RoomOrAliasId, ServerName, UserId};
use vstd::prelude::*;

verus! {

/// Why a text is no identifier.
pub enum IdFault {
    MissingSigil,
    MissingColon,
    InvalidServerName,
    InvalidCharacters,
}

impl IdFault {
    /// The message that reports the fault.
    pub open spec fn text(self) -> Seq<char> {
        match self {
            IdFault::MissingSigil => "leading sigil is incorrect or missing"@,
            IdFault::MissingColon => "required colon is missing"@,
            IdFault::InvalidServerName => "server name is not a valid IP address or domain name"@,
            IdFault::InvalidCharacters => "identifier contains invalid characters"@,
        }
    }
}

/// Whether `c` may stand in a host name.
pub open spec fn host_char(c: char) -> bool {
    '0' <= c <= '9' || 'a' <= c <= 'z' || 'A' <= c <= 'Z' || c == '-' || c == '.'
}

/// Whether every character of `s` may stand in a host name.
pub open spec fn has_host_chars(s: Seq<char>) -> bool {
    forall|i: int| 0 <= i < s.len() ==> host_char(#[trigger] s[i])
}

/// Whether `s` is a host name without a port.
pub open spec fn is_host_name(s: Seq<char>) -> bool {
    s.len() > 0 && has_host_chars(s)
}

/// Whether `c` is a decimal digit.
pub open spec fn digit_char(c: char) -> bool {
    '0' <= c <= '9'
}

/// The number that the digits `s` write.
pub open spec fn decimal(s: Seq<char>) -> int
    decreases s.len(),
{
    if s.len() == 0 {
        0
    } else {
        decimal(s.drop_last()) * 10 + (s.last() as int - '0' as int)
    }
}

/// Whether `s` is made of digits that write a number of 16 bits.
pub open spec fn is_short_number(s: Seq<char>) -> bool {
    &&& s.len() > 0
    &&& forall|i: int| 0 <= i < s.len() ==> digit_char(#[trigger] s[i])
    &&& decimal(s) <= u16::MAX
}

/// Whether `s` is a port: digits that write a number of 16 bits, with a plus sign or without one.
pub open spec fn is_port(s: Seq<char>) -> bool {
    if s.len() > 0 && s[0] == '+' {
        is_short_number(s.skip(1))
    } else {
        is_short_number(s)
    }
}

/// Whether `s` may follow the host in a server name: nothing, or a colon and a port.
pub open spec fn is_port_part(s: Seq<char>) -> bool {
    s.len() == 0 || (s[0] == ':' && is_port(s.skip(1)))
}

/// Whether `ServerName` takes the text `s`, which stands between brackets, for an IPv6 address.
pub uninterp spec fn is_ipv6_address(s: Seq<char>) -> bool;

/// What stands between the first character of `s`, a bracket, and the first closing bracket.
pub open spec fn in_brackets(s: Seq<char>) -> Seq<char> {
    before_first(s, ']').skip(1)
}

/// Whether `s` is a server name, where `ipv6` says whether what it has in brackets is an IPv6
/// address: an address in brackets or a host, which may be left out before a port, and a port or
/// none.
pub open spec fn is_server_name_with(s: Seq<char>, ipv6: bool) -> bool {
    if s.len() == 0 {
        false
    } else if s[0] == '[' {
        s.contains(']') && ipv6 && is_port_part(after_first(s, ']'))
    } else {
        has_host_chars(before_first(s, ':')) && is_port_part(s.skip(first_of(s, ':')))
    }
}

/// Whether `s` is a server name.
pub open spec fn is_server_name(s: Seq<char>) -> bool {
    is_server_name_with(s, is_ipv6_address(in_brackets(s)))
}

/// A host name is a server name.
pub proof fn lemma_host_name_is_server_name(s: Seq<char>)
    requires
        is_host_name(s),
    ensures
        is_server_name(s),
{
    lemma_first_of(s, ':');
    assert(host_char(s[0]));
    if first_of(s, ':') < s.len() {
        assert(host_char(s[first_of(s, ':')]));
    }
    assert(before_first(s, ':') =~= s);
}

/// What is wrong with `s` as a server name.
pub open spec fn server_name_fault(s: Seq<char>) -> Option<IdFault> {
    if is_server_name(s) {
        None
    } else {
        Some(IdFault::InvalidServerName)
    }
}

/// What is wrong with `s` as an identifier made of `sigil`, a local part, a colon and a server
/// name.
pub open spec fn delimited_id_fault(s: Seq<char>, sigil: char) -> Option<IdFault> {
    if s.len() == 0 || s[0] != sigil {
        Some(IdFault::MissingSigil)
    } else if !s.contains(':') {
        Some(IdFault::MissingColon)
    } else if !is_server_name(after_first(s, ':')) {
        Some(IdFault::InvalidServerName)
    } else if before_first(s, ':').contains('\0') {
        Some(IdFault::InvalidCharacters)
    } else {
        None
    }
}

/// What is wrong with `s` as a user id.
pub open spec fn user_id_fault(s: Seq<char>) -> Option<IdFault> {
    delimited_id_fault(s, '@')
}

/// What is wrong with `s` as a room id.
pub open spec fn room_id_fault(s: Seq<char>) -> Option<IdFault> {
    if s.len() == 0 || s[0] != '!' {
        Some(IdFault::MissingSigil)
    } else if s.contains('\0') {
        Some(IdFault::InvalidCharacters)
    } else {
        None
    }
}

/// What is wrong with `s` as a room id or a room alias.
pub open spec fn room_or_alias_fault(s: Seq<char>) -> Option<IdFault> {
    if s.len() > 0 && s[0] == '#' {
        delimited_id_fault(s, '#')
    } else {
        room_id_fault(s)
    }
}

/// What parsing a text with the fault `fault` comes to.
pub open spec fn fault_outcome(fault: Option<IdFault>) -> Result<(), Seq<char>> {
    match fault {
        None => Ok(()),
        Some(fault) => Err(fault.text()),
    }
}

/// Parses a server name with `ServerName::try_from`. It takes a host of ASCII letters, digits,
/// hyphens and dots, or an IPv6 address in brackets, and then a colon and a port or nothing, but
/// never the empty text. What it takes for an IPv6 address is named [`is_ipv6_address`].
#[verifier::external_body]
fn parse_server_name(name: &str) -> (r: Result<(), String>)
    ensures
        outcome(r) == fault_outcome(server_name_fault(name@)),
        (r is Ok) == is_server_name_with(name@, is_ipv6_address(in_brackets(name@))),
{
    match <&ServerName>::try_from(name) {
        Ok(_) => Ok(()),
        Err(error) => Err(error.to_string()),
    }
}

/// Parses a user id with `UserId::parse`, which asks for the sigil `@`, then for a colon, then for
/// a server name behind the first colon, then for a local part without a NUL.
#[verifier::external_body]
fn parse_user_id(id: &str) -> (r: Result<(), String>)
    ensures
        outcome(r) == fault_outcome(user_id_fault(id@)),
{
    match UserId::parse(id) {
        Ok(_) => Ok(()),
        Err(error) => Err(error.to_string()),
    }
}

/// Parses a room id with `RoomId::parse`, which asks for the sigil `!`, then for no NUL.
#[verifier::external_body]
fn parse_room_id(id: &str) -> (r: Result<(), String>)
    ensures
        outcome(r) == fault_outcome(room_id_fault(id@)),
{
    match RoomId::parse(id) {
        Ok(_) => Ok(()),
        Err(error) => Err(error.to_string()),
    }
}

/// Parses a room id or alias with `RoomOrAliasId::parse`, which takes a text with the sigil `#` for
/// an alias, made like a user id, and any other for a room id.
#[verifier::external_body]
fn parse_room_or_alias_id(id: &str) -> (r: Result<(), String>)
    ensures
        outcome(r) == fault_outcome(room_or_alias_fault(id@)),
{
    match RoomOrAliasId::parse(id) {
        Ok(_) => Ok(()),
        Err(error) => Err(error.to_string()),
    }
}

/// Whether `id` is a user id.
pub fn is_user_id(id: &str) -> (r: bool)
    ensures
        r == (user_id_fault(id@) is None),
{
    parse_user_id(id).is_ok()
}

/// Whether `id` is a room id.
pub fn is_room_id(id: &str) -> (r: bool)
    ensures
        r == (room_id_fault(id@) is None),
{
    parse_room_id(id).is_ok()
}

/// Whether `id` is a room id or a room alias.
pub fn is_room_or_alias_id(id: &str) -> (r: bool)
    ensures
        r == (room_or_alias_fault(id@) is None),
{
    parse_room_or_alias_id(id).is_ok()
}

/// The account that a password login is for.
pub struct LoginIdentity {
    pub server_name: String,
    pub localpart: String,
}

/// The contents of a [`LoginIdentity`].
#[verifier::ext_equal]
pub struct LoginIdentityView {
    pub server_name: Seq<char>,
    pub localpart: Seq<char>,
}

impl View for LoginIdentity {
    type V = LoginIdentityView;

    open spec fn view(&self) -> LoginIdentityView {
        LoginIdentityView { server_name: self.server_name@, localpart: self.localpart@ }
    }
}

/// Whether the user typed a whole user id, not only a user name.
pub open spec fn is_full_id(input: Seq<char>) -> bool {
    input.len() > 0 && input[0] == '@'
}

/// The user id that `input` stands for: a bare name is an account at matrix.org.
pub open spec fn login_user_id(input: Seq<char>) -> Seq<char> {
    if is_full_id(input) {
        input
    } else {
        "@"@ + input + ":matrix.org"@
    }
}

/// The account that `input` stands for, where `parsed` is what its user id parses to.
pub open spec fn identity_from(input: Seq<char>, parsed: Result<(), Seq<char>>) -> Result<
    LoginIdentityView,
    Seq<char>,
> {
    let id = login_user_id(input);
    match parsed {
        Ok(_) => Ok(
            LoginIdentityView {
                server_name: after_first(id, ':'),
                localpart: if is_full_id(input) {
                    before_first(id, ':').skip(1)
                } else {
                    input
                },
            },
        ),
        Err(fault) => Err(
            if is_full_id(input) {
                "Invalid user ID format: "@ + fault
            } else {
                "Invalid username format: "@ + fault
            },
        ),
    }
}

/// The account that `input` stands for.
pub open spec fn identity_of(input: Seq<char>) -> Result<LoginIdentityView, Seq<char>> {
    identity_from(input, fault_outcome(user_id_fault(login_user_id(input))))
}

/// The contents of an account or of the message why there is none.
pub open spec fn identity_view(r: Result<LoginIdentity, String>) -> Result<
    LoginIdentityView,
    Seq<char>,
> {
    match r {
        Ok(identity) => Ok(identity@),
        Err(error) => Err(error@),
    }
}

/// The user id that `input` stands for.
pub fn user_id_for_login(input: &str) -> (r: String)
    ensures
        r@ == login_user_id(input@),
{
    if starts_with_char(input, '@') {
        input.to_owned()
    } else {
        joined(joined("@", input).as_str(), ":matrix.org")
    }
}

/// The account that `input` stands for, where `parsed` is what its user id parses to.
pub fn login_identity_from(input: &str, parsed: Result<(), String>) -> (r: Result<
    LoginIdentity,
    String,
>)
    ensures
        identity_view(r) == identity_from(input@, outcome(parsed)),
{
    let id = user_id_for_login(input);
    let full: bool = starts_with_char(input, '@');
    match parsed {
        Ok(_) => {
            let server_name = after_first_char(id.as_str(), ':').to_owned();
            let localpart = if full {
                let head = before_first_char(id.as_str(), ':');
                let len: usize = head.unicode_len();
                proof {
                    lemma_first_of(id@, ':');
                    assert(head@.len() > 0) by {
                        if head@.len() == 0 {
                            assert(id@[0] == '@');
                        }
                    }
                }
                let local = head.substring_char(1, len);
                assert(local@ =~= head@.skip(1));
                local.to_owned()
            } else {
                input.to_owned()
            };
            Ok(LoginIdentity { server_name, localpart })
        },
        Err(fault) => Err(
            if full {
                joined("Invalid user ID format: ", fault.as_str())
            } else {
                joined("Invalid username format: ", fault.as_str())
            },
        ),
    }
}

/// The account that the user means by `input`, or why it names none.
pub fn login_identity(input: &str) -> (r: Result<LoginIdentity, String>)
    ensures
        identity_view(r) == identity_of(input@),
{
    let id = user_id_for_login(input);
    let parsed = parse_user_id(id.as_str());
    login_identity_from(input, parsed)
}

/// The server that a homeserver URL names: the URL without its scheme and trailing slashes.
pub open spec fn homeserver_name(url: Seq<char>) -> Seq<char> {
    without_suffix_char(
        without_prefix(without_prefix(url, "https://"@), "http://"@),
        '/',
    )
}

/// The server to log in at through the browser, where `parsed` is what its name parses to.
pub open spec fn sso_server_from(url: Seq<char>, parsed: Result<(), Seq<char>>) -> Result<
    Seq<char>,
    Seq<char>,
> {
    let name = homeserver_name(url);
    if name.len() == 0 {
        Err("Invalid homeserver URL. Use https://matrix.org or another Matrix server."@)
    } else {
        match parsed {
            Ok(_) => Ok(name),
            Err(fault) => Err("Invalid homeserver URL: "@ + fault),
        }
    }
}

/// The server to log in at through the browser.
pub open spec fn sso_server_of(url: Seq<char>) -> Result<Seq<char>, Seq<char>> {
    sso_server_from(url, fault_outcome(server_name_fault(homeserver_name(url))))
}

/// The server that a homeserver URL names.
pub fn name_of_homeserver(url: &str) -> (r: String)
    ensures
        r@ == homeserver_name(url@),
{
    let bare = trim_start_matches(trim_start_matches(url, "https://"), "http://");
    trim_end_matches_char(bare, '/').to_owned()
}

/// The server to log in at through the browser, where `parsed` is what its name parses to.
pub fn sso_server_name_from(url: &str, parsed: Result<(), String>) -> (r: Result<String, String>)
    ensures
        text_view(r) == sso_server_from(url@, outcome(parsed)),
{
    let name = name_of_homeserver(url);
    if name.as_str().unicode_len() == 0 {
        return Err(
            "Invalid homeserver URL. Use https://matrix.org or another Matrix server.".to_owned(),
        );
    }
    match parsed {
        Ok(_) => Ok(name),
        Err(fault) => Err(joined("Invalid homeserver URL: ", fault.as_str())),
    }
}

/// The server that the user means by the homeserver URL, or why it names none.
pub fn sso_server_name(url: &str) -> (r: Result<String, String>)
    ensures
        text_view(r) == sso_server_of(url@),
{
    let name = name_of_homeserver(url);
    let parsed = parse_server_name(name.as_str());
    sso_server_name_from(url, parsed)
}

/// Whether `s` begins like a room alias or a room id.
pub open spec fn has_room_sigil(s: Seq<char>) -> bool {
    s.len() > 0 && (s[0] == '#' || s[0] == '!')
}

/// `s` as an alias, unless it begins like an alias or a room id.
pub open spec fn with_room_sigil(s: Seq<char>) -> Seq<char> {
    if has_room_sigil(s) {
        s
    } else {
        "#"@ + s
    }
}

/// The room id or alias that the user means by `text`: a matrix.to link, another link whose
/// fragment names the room, an id or alias as it stands, or a name that may lack the sigil and the
/// server, which is then matrix.org.
pub open spec fn room_alias_of(text: Seq<char>) -> Seq<char> {
    let input = trimmed(text);
    if input.len() == 0 {
        input
    } else if "https://matrix.to/#/"@.is_prefix_of(input) || "http://matrix.to/#/"@.is_prefix_of(
        input,
    ) {
        with_room_sigil(
            without_prefix(
                without_prefix(input, "https://matrix.to/#/"@),
                "http://matrix.to/#/"@,
            ),
        )
    } else if "https://"@.is_prefix_of(input) || "http://"@.is_prefix_of(input) {
        with_room_sigil(after_last(input, '#'))
    } else if has_room_sigil(input) {
        input
    } else if input.contains(':') {
        "#"@ + input
    } else {
        "#"@ + input + ":matrix.org"@
    }
}

fn starts_with_room_sigil(s: &str) -> (r: bool)
    ensures
        r == has_room_sigil(s@),
{
    starts_with_char(s, '#') || starts_with_char(s, '!')
}

fn add_room_sigil(s: &str) -> (r: String)
    ensures
        r@ == with_room_sigil(s@),
{
    if starts_with_room_sigil(s) {
        s.to_owned()
    } else {
        joined("#", s)
    }
}

/// The room id or alias that the user means by `text`; empty where the text is blank.
pub fn normalize_room_alias(text: &str) -> (r: String)
    ensures
        r@ == room_alias_of(text@),
{
    let input = trim(text);
    if input.unicode_len() == 0 {
        input.to_owned()
    } else if starts_with(input, "https://matrix.to/#/") || starts_with(
        input,
        "http://matrix.to/#/",
    ) {
        add_room_sigil(
            trim_start_matches(
                trim_start_matches(input, "https://matrix.to/#/"),
                "http://matrix.to/#/",
            ),
        )
    } else if starts_with(input, "https://") || starts_with(input, "http://") {
        add_room_sigil(after_last_char(input, '#'))
    } else if starts_with_room_sigil(input) {
        input.to_owned()
    } else if contains_char(input, ':') {
        joined("#", input)
    } else {
        joined(joined("#", input).as_str(), ":matrix.org")
    }
}

/// A blank text names no room; any other is taken for an id or an alias, for which neither
/// surrounding white space nor taking it a second time makes a difference.
pub proof fn lemma_room_alias_of(text: Seq<char>)
    ensures
        room_alias_of(text).len() == 0 <==> trimmed(text).len() == 0,
        trimmed(text).len() > 0 ==> has_room_sigil(room_alias_of(text)),
        room_alias_of(trimmed(text)) == room_alias_of(text),
        room_alias_of(room_alias_of(text)) == room_alias_of(text),
{
    let input = trimmed(text);
    let alias = room_alias_of(text);
    let link = without_prefix(input, "https://matrix.to/#/"@);
    reveal_strlit("#");
    reveal_strlit(":matrix.org");
    reveal_strlit("https://");
    reveal_strlit("http://");
    reveal_strlit("https://matrix.to/#/");
    reveal_strlit("http://matrix.to/#/");
    lemma_trimmed_ends(text);
    lemma_trimmed_stays(input);
    lemma_without_prefix_is_suffix(input, "https://matrix.to/#/"@);
    lemma_without_prefix_is_suffix(link, "http://matrix.to/#/"@);
    lemma_after_last_is_suffix(input, '#');
    if input.len() > 0 {
        assert(has_room_sigil(alias));
        assert(!white_space(alias.last()));
        lemma_trimmed_stays(alias);
        assert("https://"@[0] == 'h' && "http://"@[0] == 'h');
        assert("https://matrix.to/#/"@[0] == 'h' && "http://matrix.to/#/"@[0] == 'h');
        assert(alias[0] != 'h');
    }
}

/// A bare user name is an account at matrix.org.
pub proof fn lemma_bare_name_is_at_matrix_org(name: Seq<char>)
    requires
        !is_full_id(name),
        !name.contains(':'),
        !name.contains('\0'),
    ensures
        identity_of(name) == Ok::<LoginIdentityView, Seq<char>>(
            LoginIdentityView { server_name: "matrix.org"@, localpart: name },
        ),
{
    reveal_strlit("@");
    reveal_strlit(":matrix.org");
    reveal_strlit("matrix.org");
    let id = login_user_id(name);
    let n = name.len() as int;
    lemma_first_of(id, ':');
    assert(id[n + 1] == ':');
    assert(first_of(id, ':') == n + 1) by {
        let k = first_of(id, ':');
        if k < n + 1 {
            assert(k > 0);
            assert(name[k - 1] == ':');
        }
    }
    assert(after_first(id, ':') =~= "matrix.org"@);
    lemma_host_name_is_server_name("matrix.org"@);
    let head = before_first(id, ':');
    if head.contains('\0') {
        let j = choose|j: int| 0 <= j < head.len() && head[j] == '\0';
        assert(j > 0);
        assert(name[j - 1] == '\0');
    }
}

/// A user name with a colon names no account: it has to be given as a whole user id.
pub proof fn lemma_name_with_colon_is_refused(name: Seq<char>)
    requires
        !is_full_id(name),
        name.contains(':'),
    ensures
        identity_of(name) is Err,
{
    reveal_strlit("@");
    reveal_strlit(":matrix.org");
    let id = login_user_id(name);
    let server = after_first(id, ':');
    let at = choose|i: int| 0 <= i < name.len() && name[i] == ':';
    assert(id[at + 1] == ':');
    lemma_first_of(id, ':');
    assert(first_of(id, ':') <= at + 1) by {
        if first_of(id, ':') > at + 1 {
            assert(id[at + 1] != ':');
        }
    }
    let n = server.len() as int;
    assert(n >= 11);
    assert(server[n - 1] == id[id.len() - 1]);
    assert(server[n - 11] == id[id.len() - 11]);
    assert(server[n - 1] == 'g' && server[n - 11] == ':');
    lemma_first_of(server, ':');
    lemma_first_of(server, ']');
    let rest = if server[0] == '[' {
        after_first(server, ']')
    } else {
        server.skip(first_of(server, ':'))
    };
    if is_port_part(rest) && rest.len() > 0 {
        let port = rest.skip(1);
        let digits = if port[0] == '+' {
            port.skip(1)
        } else {
            port
        };
        assert(digit_char(digits[digits.len() - 1]));
        assert(digits[digits.len() - 1] == server[n - 1]);
    }
    if server[0] == '[' && server.contains(']') && rest.len() == 0 {
        assert(server[n - 1] == ']');
    }
}

/// A user id is made of `@`, the local part that is logged in with, a colon and the server that is
/// logged in at.
pub proof fn lemma_identity_makes_up_the_user_id(id: Seq<char>)
    requires
        user_id_fault(id) is None,
    ensures
        identity_of(id) matches Ok(identity) && id == "@"@ + identity.localpart + ":"@
            + identity.server_name && !identity.localpart.contains(':'),
{
    reveal_strlit("@");
    reveal_strlit(":");
    lemma_first_of(id, ':');
    let identity = identity_of(id)->Ok_0;
    assert(first_of(id, ':') > 0);
    assert(id =~= "@"@ + identity.localpart + ":"@ + identity.server_name);
    if identity.localpart.contains(':') {
        let j = choose|j: int| 0 <= j < identity.localpart.len() && identity.localpart[j] == ':';
        assert(id[j + 1] == ':');
    }
}

proof fn lemma_not_a_prefix(s: Seq<char>, p: Seq<char>, at: int)
    requires
        0 <= at < p.len(),
        at < s.len() ==> s[at] != p[at],
    ensures
        without_prefix(s, p) == s,
{
    if p.is_prefix_of(s) {
        assert(p == s.subrange(0, p.len() as int));
        assert(p[at] == s[at]);
    }
}

proof fn lemma_slashes_come_off(s: Seq<char>, slashes: Seq<char>)
    requires
        s.len() > 0,
        s.last() != '/',
        forall|i: int| 0 <= i < slashes.len() ==> #[trigger] slashes[i] == '/',
    ensures
        without_suffix_char(s + slashes, '/') == s,
    decreases slashes.len(),
{
    if slashes.len() > 0 {
        assert((s + slashes).drop_last() =~= s + slashes.drop_last());
        lemma_slashes_come_off(s, slashes.drop_last());
    } else {
        assert(s + slashes =~= s);
    }
}

/// A host name can be given with or without a scheme and with any number of trailing slashes.
pub proof fn lemma_homeserver_url(scheme: Seq<char>, host: Seq<char>, slashes: Seq<char>)
    requires
        scheme == "https://"@ || scheme == "http://"@ || scheme == Seq::<char>::empty(),
        is_host_name(host),
        forall|i: int| 0 <= i < slashes.len() ==> #[trigger] slashes[i] == '/',
    ensures
        sso_server_of(scheme + host + slashes) == Ok::<Seq<char>, Seq<char>>(host),
{
    reveal_strlit("https://");
    reveal_strlit("http://");
    let secure = "https://"@;
    let plain = "http://"@;
    let rest = host + slashes;
    let url = scheme + host + slashes;
    assert(url =~= scheme + rest);
    assert(host_char(host[0]) && host_char(host.last()));
    // Both schemes hold a colon, and `rest` holds none.
    assert forall|i: int| 0 <= i < rest.len() implies #[trigger] rest[i] != ':' by {
        if i < host.len() {
            assert(host_char(host[i]));
        } else {
            assert(slashes[i - host.len()] == '/');
        }
    }
    lemma_not_a_prefix(rest, secure, 5);
    lemma_not_a_prefix(rest, plain, 4);
    if scheme == secure {
        assert(secure =~= url.subrange(0, secure.len() as int));
        assert(url.skip(secure.len() as int) =~= rest);
    } else if scheme == plain {
        lemma_not_a_prefix(url, secure, 4);
        assert(plain =~= url.subrange(0, plain.len() as int));
        assert(url.skip(plain.len() as int) =~= rest);
    } else {
        assert(url =~= rest);
    }
    lemma_slashes_come_off(host, slashes);
    lemma_host_name_is_server_name(host);
}

} // verus!
