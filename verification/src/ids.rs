//! Matrix identifiers: room aliases, user ids, room ids and server names.
//!
//! Each identifier is held as the string it was parsed from; its type
//! invariant records that ruma accepted it.

use vstd::prelude::*;
use vstd::string::*;
use vstd::utf8::encode_utf8;

verus! {

/// Why ruma refused a string as an identifier.
#[derive(Clone, Copy, Debug, PartialEq, Eq, Structural)]
pub enum IdError {
    InvalidCharacters,
    InvalidServerName,
    MaximumLengthExceeded,
    MissingColon,
    MissingLeadingSigil,
    Other,
}

/// Length of a string in UTF-8 bytes.
pub open spec fn utf8_len(s: Seq<char>) -> nat {
    encode_utf8(s).len()
}

/// `i` is the position of the first `c` in `s`.
pub open spec fn is_first(s: Seq<char>, c: char, i: int) -> bool {
    &&& 0 <= i < s.len()
    &&& s[i] == c
    &&& forall|j: int| 0 <= j < i ==> s[j] != c
}

/// Position of the first `c` in `s` (meaningful when `s` contains `c`).
pub open spec fn first_index(s: Seq<char>, c: char) -> int {
    choose|i: int| is_first(s, c, i)
}

/// The first occurrence of a character is unique.
pub proof fn lemma_first_index(s: Seq<char>, c: char, i: int)
    requires
        is_first(s, c, i),
    ensures
        first_index(s, c) == i,
{
    let k = first_index(s, c);
    assert(is_first(s, c, k));
    if k < i {
        assert(s[k] != c);
    }
    if i < k {
        assert(s[i] != c);
    }
}

/// What follows the first `:` of a delimited identifier.
pub open spec fn server_part(s: Seq<char>) -> Seq<char> {
    s.subrange(first_index(s, ':') + 1, s.len() as int)
}

/// What stands between the sigil and the first `:` of a delimited identifier.
pub open spec fn localpart(s: Seq<char>) -> Seq<char> {
    s.subrange(1, first_index(s, ':'))
}

/// The host of a server name: an IPv6 literal up to its `]`, otherwise
/// everything before the port.
pub open spec fn host_part(s: Seq<char>) -> Seq<char> {
    if s.contains(']') {
        s.subrange(0, first_index(s, ']') + 1)
    } else if s.contains(':') {
        s.subrange(0, first_index(s, ':'))
    } else {
        s
    }
}

/// Whether `std::net::Ipv6Addr` parses `s` as an IPv6 address.
pub uninterp spec fn ipv6_text(s: Seq<char>) -> bool;

/// A character allowed in a host name: an ASCII letter or digit, `-` or `.`.
pub open spec fn host_char(c: char) -> bool {
    ascii_alphanumeric(c) || c == '-' || c == '.'
}

/// The value of a string of decimal digits.
pub open spec fn digits_value(s: Seq<char>) -> int
    decreases s.len(),
{
    if s.len() == 0 {
        0
    } else {
        digits_value(s.drop_last()) * 10 + ((s.last() as u32) - 0x30)
    }
}

/// A string of at least one decimal digit, of value at most 65535.
pub open spec fn decimal_u16(d: Seq<char>) -> bool {
    &&& d.len() > 0
    &&& forall|i: int| 0 <= i < d.len() ==> 0x30 <= (#[trigger] d[i] as u32) <= 0x39
    &&& digits_value(d) <= 65535
}

/// Whether `u16::from_str` accepts `s`: an optional `+` followed by at least
/// one decimal digit, of value at most 65535.
pub open spec fn u16_text(s: Seq<char>) -> bool {
    if s.len() > 0 && s[0] == '+' {
        decimal_u16(s.drop_first())
    } else {
        decimal_u16(s)
    }
}

/// Whether what follows the host, from position `end`, is nothing or a
/// valid `:port`.
pub open spec fn port_suffix_valid(s: Seq<char>, end: int) -> bool {
    end == s.len() || (s[end] == ':' && u16_text(s.subrange(end + 1, s.len() as int)))
}

/// Whether ruma accepts `s` as a server name: a bracketed IPv6 address, or a
/// host of letters, digits, `-` and `.`, then an optional `:port`.
pub open spec fn server_name_valid(s: Seq<char>) -> bool {
    if s.len() == 0 {
        false
    } else if s[0] == '[' {
        &&& s.contains(']')
        &&& ipv6_text(s.subrange(1, first_index(s, ']')))
        &&& port_suffix_valid(s, first_index(s, ']') + 1)
    } else {
        let end = if s.contains(':') {
            first_index(s, ':')
        } else {
            s.len() as int
        };
        &&& forall|i: int| 0 <= i < end ==> host_char(#[trigger] s[i])
        &&& port_suffix_valid(s, end)
    }
}

/// Ruma's check of an identifier of the form `<sigil>localpart:server`.
pub open spec fn delimited_check(s: Seq<char>, sigil: char) -> Result<(), IdError> {
    if utf8_len(s) > 255 {
        Err(IdError::MaximumLengthExceeded)
    } else if s.len() == 0 || s[0] != sigil {
        Err(IdError::MissingLeadingSigil)
    } else if !s.contains(':') {
        Err(IdError::MissingColon)
    } else if !server_name_valid(server_part(s)) {
        Err(IdError::InvalidServerName)
    } else {
        Ok(())
    }
}

/// Ruma's check of a room alias such as `#room:example.org`.
pub open spec fn room_alias_check(s: Seq<char>) -> Result<(), IdError> {
    delimited_check(s, '#')
}

/// A character allowed in a user id localpart (historical rules included).
pub open spec fn localpart_char(c: char) -> bool {
    0x21 <= (c as u32) <= 0x7e && c != ':'
}

/// Ruma's check of a user id such as `@user:example.org`.
pub open spec fn user_id_check(s: Seq<char>) -> Result<(), IdError> {
    match delimited_check(s, '@') {
        Err(e) => Err(e),
        Ok(()) => {
            let l = localpart(s);
            if l.len() == 0 || exists|i: int| 0 <= i < l.len() && !localpart_char(l[i]) {
                Err(IdError::InvalidCharacters)
            } else {
                Ok(())
            }
        },
    }
}

/// Ruma's check of a room id such as `!opaque:example.org`.
pub open spec fn room_id_check(s: Seq<char>) -> Result<(), IdError> {
    if utf8_len(s) > 255 {
        Err(IdError::MaximumLengthExceeded)
    } else if s.len() == 0 || s[0] != '!' {
        Err(IdError::MissingLeadingSigil)
    } else {
        Ok(())
    }
}

/// An ASCII letter or digit.
pub open spec fn ascii_alphanumeric(c: char) -> bool {
    ||| 0x30 <= (c as u32) <= 0x39
    ||| 0x41 <= (c as u32) <= 0x5a
    ||| 0x61 <= (c as u32) <= 0x7a
}

/// The refusal of an identifier with error `e`.
pub open spec fn refused(e: IdError) -> Result<(), IdError> {
    Err(e)
}

/// `id` is `!`, 18 ASCII letters or digits, `:` and `server`.
pub open spec fn generated_room_id(id: Seq<char>, server: Seq<char>) -> bool {
    exists|local: Seq<char>|
        {
            &&& local.len() == 18
            &&& forall|i: int| 0 <= i < 18 ==> ascii_alphanumeric(#[trigger] local[i])
            &&& id == seq!['!'] + local + seq![':'] + server
        }
}

/// Law: the host of a server name with a port is everything before the
/// `:`, whatever the port; the host of a name without a port is the name.
pub proof fn lemma_host_of_named_host(h: Seq<char>, port: Seq<char>)
    requires
        forall|i: int| 0 <= i < h.len() ==> host_char(#[trigger] h[i]),
        u16_text(port),
    ensures
        host_part(h + seq![':'] + port) == h,
        host_part(h) == h,
{
    let s = h + seq![':'] + port;
    assert forall|i: int| 0 <= i < port.len() implies port[i] != ']' by {
        if port.len() > 0 && port[0] == '+' {
            if i > 0 {
                assert(port.drop_first()[i - 1] == port[i]);
                assert(0x30 <= (port.drop_first()[i - 1] as u32) <= 0x39);
            }
        } else {
            assert(0x30 <= (port[i] as u32) <= 0x39);
        }
    }
    assert forall|i: int| 0 <= i < s.len() implies s[i] != ']' by {
        if i < h.len() {
            assert(s[i] == h[i]);
            assert(host_char(h[i]));
        } else if i > h.len() {
            assert(s[i] == port[i - h.len() - 1]);
        }
    }
    assert(!s.contains(']'));
    assert forall|j: int| 0 <= j < h.len() implies s[j] != ':' by {
        assert(s[j] == h[j]);
        assert(host_char(h[j]));
    }
    assert(is_first(s, ':', h.len() as int));
    lemma_first_index(s, ':', h.len() as int);
    assert(s.contains(':'));
    assert(s.subrange(0, h.len() as int) =~= h);
    assert forall|i: int| 0 <= i < h.len() implies h[i] != ']' && h[i] != ':' by {
        assert(host_char(h[i]));
    }
    assert(!h.contains(']'));
    assert(!h.contains(':'));
}

/// Law: the host of a bracketed IPv6 server name is the bracketed address,
/// whatever follows it.
pub proof fn lemma_host_of_ipv6(addr: Seq<char>, rest: Seq<char>)
    requires
        !addr.contains(']'),
    ensures
        host_part(seq!['['] + addr + seq![']'] + rest) == seq!['['] + addr + seq![']'],
{
    let s = seq!['['] + addr + seq![']'] + rest;
    let k: int = addr.len() as int + 1;
    assert forall|j: int| 0 <= j < k implies s[j] != ']' by {
        if j > 0 {
            assert(s[j] == addr[j - 1]);
        }
    }
    assert(is_first(s, ']', k));
    lemma_first_index(s, ']', k);
    assert(s.contains(']'));
    assert(s.subrange(0, k + 1) =~= seq!['['] + addr + seq![']']);
}

/// Law: a room id generated for a server lives on that server: what follows
/// its first `:` is exactly the server name.
pub proof fn lemma_generated_room_id_server(id: Seq<char>, server: Seq<char>)
    requires
        generated_room_id(id, server),
    ensures
        server_part(id) == server,
{
    let local = choose|local: Seq<char>|
        {
            &&& local.len() == 18
            &&& forall|i: int| 0 <= i < 18 ==> ascii_alphanumeric(#[trigger] local[i])
            &&& id == seq!['!'] + local + seq![':'] + server
        };
    assert forall|j: int| 0 <= j < 19 implies id[j] != ':' by {
        if j > 0 {
            assert(id[j] == local[j - 1]);
            assert(ascii_alphanumeric(local[j - 1]));
        }
    }
    assert(is_first(id, ':', 19));
    lemma_first_index(id, ':', 19);
    assert(id.subrange(20, id.len() as int) =~= server);
}

/// The position of the first `c` in `s`, if any.
pub fn find_char(s: &str, c: char) -> (r: Option<usize>)
    ensures
        match r {
            Some(i) => is_first(s@, c, i as int),
            None => !s@.contains(c),
        },
{
    let n = s.unicode_len();
    let mut i: usize = 0;
    while i < n
        invariant
            n == s@.len(),
            i <= n,
            forall|j: int| 0 <= j < i ==> s@[j] != c,
        decreases n - i,
    {
        if s.get_char(i) == c {
            return Some(i);
        }
        i = i + 1;
    }
    None
}

/// A server name that ruma accepts, such as `example.org:8448`.
#[derive(Debug)]
pub struct ServerName {
    id: String,
}

impl Clone for ServerName {
    fn clone(&self) -> (r: Self)
        ensures
            r@ == self@,
    {
        proof {
            use_type_invariant(self);
        }
        ServerName { id: self.id.clone() }
    }
}

impl View for ServerName {
    type V = Seq<char>;

    closed spec fn view(&self) -> Seq<char> {
        self.id@
    }
}

/// Checks `s` with `ruma::ServerName::parse`; the contract claims that it
/// accepts exactly what `ruma_identifiers_validation::server_name::validate`
/// accepts (stated by `server_name_valid`, with std's IPv6 parser named),
/// that the string comes back unchanged when it is accepted, and that a
/// refusal is always `InvalidServerName`.
#[verifier::external_body]
fn ruma_parse_server_name(s: &str) -> (r: Result<String, IdError>)
    ensures
        r is Ok <==> server_name_valid(s@),
        s@.len() > 0 && s@[0] == '[' && s@.contains(']') ==> (r is Ok ==> ipv6_text(
            s@.subrange(1, first_index(s@, ']')),
        )),
        r matches Ok(v) ==> v@ == s@,
        r matches Err(e) ==> e == IdError::InvalidServerName,
{
    match ruma::ServerName::parse(s) {
        Ok(name) => Ok(name.as_str().to_owned()),
        Err(_) => Err(IdError::InvalidServerName),
    }
}

impl ServerName {
    #[verifier::type_invariant]
    spec fn inv(self) -> bool {
        server_name_valid(self.id@)
    }

    /// Parses a server name.
    pub fn parse(s: &str) -> (r: Result<ServerName, IdError>)
        ensures
            r is Ok <==> server_name_valid(s@),
            r matches Ok(v) ==> v@ == s@,
            r matches Err(e) ==> e == IdError::InvalidServerName,
    {
        match ruma_parse_server_name(s) {
            Ok(id) => Ok(ServerName { id }),
            Err(e) => Err(e),
        }
    }

    /// The server name as text.
    pub fn as_str(&self) -> (r: &str)
        ensures
            r@ == self@,
            server_name_valid(self@),
    {
        proof {
            use_type_invariant(self);
        }
        self.id.as_str()
    }

    /// Whether two server names are the same text.
    pub fn same(&self, other: &ServerName) -> (r: bool)
        ensures
            r == (self@ == other@),
    {
        self.id == other.id
    }

    /// The host part of the server name, without the port.
    pub fn host(&self) -> (r: String)
        ensures
            r@ == host_part(self@),
    {
        let s = self.id.as_str();
        let n = s.unicode_len();
        match find_char(s, ']') {
            Some(i) => {
                proof {
                    lemma_first_index(s@, ']', i as int);
                }
                assert(i < n);
                String::from_str(s.substring_char(0, i + 1))
            },
            None => match find_char(s, ':') {
                Some(i) => {
                    proof {
                        lemma_first_index(s@, ':', i as int);
                    }
                    String::from_str(s.substring_char(0, i))
                },
                None => String::from_str(s),
            },
        }
    }
}

/// A room alias such as `#room:example.org`.
#[derive(Debug)]
pub struct RoomAlias {
    id: String,
}

impl Clone for RoomAlias {
    fn clone(&self) -> (r: Self)
        ensures
            r@ == self@,
    {
        proof {
            use_type_invariant(self);
        }
        RoomAlias { id: self.id.clone() }
    }
}

impl View for RoomAlias {
    type V = Seq<char>;

    closed spec fn view(&self) -> Seq<char> {
        self.id@
    }
}

/// Checks `s` with `ruma::RoomAliasId::parse`; the contract claims that the
/// string comes back unchanged when accepted, and which error each refusal
/// gives, as ruma's `room_alias_id::validate` decides it.
#[verifier::external_body]
fn ruma_parse_room_alias(s: &str) -> (r: Result<String, IdError>)
    ensures
        r matches Ok(v) ==> v@ == s@ && room_alias_check(s@) is Ok,
        r matches Err(e) ==> room_alias_check(s@) == refused(e),
{
    match ruma::RoomAliasId::parse(s) {
        Ok(id) => Ok(id.as_str().to_owned()),
        Err(ruma::IdParseError::MaximumLengthExceeded) => Err(IdError::MaximumLengthExceeded),
        Err(ruma::IdParseError::MissingLeadingSigil) => Err(IdError::MissingLeadingSigil),
        Err(ruma::IdParseError::MissingColon) => Err(IdError::MissingColon),
        Err(ruma::IdParseError::InvalidServerName) => Err(IdError::InvalidServerName),
        Err(_) => Err(IdError::Other),
    }
}

impl RoomAlias {
    #[verifier::type_invariant]
    spec fn inv(self) -> bool {
        room_alias_check(self.id@) is Ok
    }

    /// Parses a room alias.
    pub fn parse(s: &str) -> (r: Result<RoomAlias, IdError>)
        ensures
            r matches Ok(v) ==> v@ == s@,
            r is Ok <==> room_alias_check(s@) is Ok,
            r matches Err(e) ==> room_alias_check(s@) == refused(e),
    {
        match ruma_parse_room_alias(s) {
            Ok(id) => Ok(RoomAlias { id }),
            Err(e) => Err(e),
        }
    }

    /// The alias as text.
    pub fn as_str(&self) -> (r: &str)
        ensures
            r@ == self@,
            room_alias_check(self@) is Ok,
    {
        proof {
            use_type_invariant(self);
        }
        self.id.as_str()
    }

    /// Whether two aliases are the same text.
    pub fn same(&self, other: &RoomAlias) -> (r: bool)
        ensures
            r == (self@ == other@),
    {
        self.id == other.id
    }

    /// The server the alias lives on: what follows its first `:`.
    pub fn server_name(&self) -> (r: ServerName)
        ensures
            r@ == server_part(self@),
    {
        proof {
            use_type_invariant(self);
        }
        let s = self.id.as_str();
        let n = s.unicode_len();
        match find_char(s, ':') {
            Some(i) => {
                proof {
                    lemma_first_index(s@, ':', i as int);
                }
                ServerName { id: String::from_str(s.substring_char(i + 1, n)) }
            },
            None => {
                proof {
                    assert(false);
                }
                ServerName { id: String::new() }
            },
        }
    }
}

/// A user id such as `@admin:example.org`.
#[derive(Debug)]
pub struct UserIdent {
    id: String,
}

impl Clone for UserIdent {
    fn clone(&self) -> (r: Self)
        ensures
            r@ == self@,
    {
        proof {
            use_type_invariant(self);
        }
        UserIdent { id: self.id.clone() }
    }
}

impl View for UserIdent {
    type V = Seq<char>;

    closed spec fn view(&self) -> Seq<char> {
        self.id@
    }
}

/// Checks `s` with `ruma::UserId::parse`; the contract claims that the string
/// comes back unchanged when accepted, and which error each refusal gives, as
/// ruma's `user_id::validate` decides it.
#[verifier::external_body]
fn ruma_parse_user_id(s: &str) -> (r: Result<String, IdError>)
    ensures
        r matches Ok(v) ==> v@ == s@ && user_id_check(s@) is Ok,
        r matches Err(e) ==> user_id_check(s@) == refused(e),
{
    match ruma::UserId::parse(s) {
        Ok(id) => Ok(id.as_str().to_owned()),
        Err(ruma::IdParseError::MaximumLengthExceeded) => Err(IdError::MaximumLengthExceeded),
        Err(ruma::IdParseError::MissingLeadingSigil) => Err(IdError::MissingLeadingSigil),
        Err(ruma::IdParseError::MissingColon) => Err(IdError::MissingColon),
        Err(ruma::IdParseError::InvalidServerName) => Err(IdError::InvalidServerName),
        Err(ruma::IdParseError::InvalidCharacters) => Err(IdError::InvalidCharacters),
        Err(_) => Err(IdError::Other),
    }
}

impl UserIdent {
    #[verifier::type_invariant]
    spec fn inv(self) -> bool {
        user_id_check(self.id@) is Ok
    }

    /// Parses a user id.
    pub fn parse(s: &str) -> (r: Result<UserIdent, IdError>)
        ensures
            r matches Ok(v) ==> v@ == s@,
            r is Ok <==> user_id_check(s@) is Ok,
            r matches Err(e) ==> user_id_check(s@) == refused(e),
    {
        match ruma_parse_user_id(s) {
            Ok(id) => Ok(UserIdent { id }),
            Err(e) => Err(e),
        }
    }

    /// The user id as text.
    pub fn as_str(&self) -> (r: &str)
        ensures
            r@ == self@,
            user_id_check(self@) is Ok,
    {
        proof {
            use_type_invariant(self);
        }
        self.id.as_str()
    }
}

/// A room id such as `!opaque:example.org`.
#[derive(Debug)]
pub struct RoomIdent {
    id: String,
}

impl Clone for RoomIdent {
    fn clone(&self) -> (r: Self)
        ensures
            r@ == self@,
    {
        proof {
            use_type_invariant(self);
        }
        RoomIdent { id: self.id.clone() }
    }
}

impl View for RoomIdent {
    type V = Seq<char>;

    closed spec fn view(&self) -> Seq<char> {
        self.id@
    }
}

/// Checks `s` with `ruma::RoomId::parse`; the contract claims that the string
/// comes back unchanged when accepted, and which error each refusal gives, as
/// ruma's `room_id::validate` decides it (length, then the `!` sigil).
#[verifier::external_body]
fn ruma_parse_room_id(s: &str) -> (r: Result<String, IdError>)
    ensures
        r matches Ok(v) ==> v@ == s@ && room_id_check(s@) is Ok,
        r matches Err(e) ==> room_id_check(s@) == refused(e),
{
    match ruma::RoomId::parse(s) {
        Ok(id) => Ok(id.as_str().to_owned()),
        Err(ruma::IdParseError::MaximumLengthExceeded) => Err(IdError::MaximumLengthExceeded),
        Err(ruma::IdParseError::MissingLeadingSigil) => Err(IdError::MissingLeadingSigil),
        Err(_) => Err(IdError::Other),
    }
}

/// Calls `ruma::RoomId::new` for the server `server`. The contract claims what
/// ruma's source shows of every outcome: `!`, a localpart of 18 random ASCII
/// letters and digits, `:`, and the server name. Which letters is left open.
#[verifier::external_body]
fn ruma_new_room_id(server: &ServerName) -> (r: String)
    ensures
        generated_room_id(r@, server@),
{
    let name = <&ruma::ServerName>::try_from(server.id.as_str()).unwrap();
    ruma::RoomId::new(name).as_str().to_owned()
}

impl RoomIdent {
    #[verifier::type_invariant]
    spec fn inv(self) -> bool {
        self.id@.len() > 0 && self.id@[0] == '!'
    }

    /// Parses a room id.
    pub fn parse(s: &str) -> (r: Result<RoomIdent, IdError>)
        ensures
            r matches Ok(v) ==> v@ == s@,
            r is Ok <==> room_id_check(s@) is Ok,
            r matches Err(e) ==> room_id_check(s@) == refused(e),
    {
        match ruma_parse_room_id(s) {
            Ok(id) => Ok(RoomIdent { id }),
            Err(e) => Err(e),
        }
    }

    /// A fresh room id on `server`, with a random localpart of 18 ASCII
    /// letters and digits.
    pub fn generate(server: &ServerName) -> (r: RoomIdent)
        ensures
            generated_room_id(r@, server@),
    {
        let id = ruma_new_room_id(server);
        assert(id@[0] == '!');
        RoomIdent { id }
    }

    /// The room id as text.
    pub fn as_str(&self) -> (r: &str)
        ensures
            r@ == self@,
            r@.len() > 0 && r@[0] == '!',
    {
        proof {
            use_type_invariant(self);
        }
        self.id.as_str()
    }
}

} // verus!
