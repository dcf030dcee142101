//! The STUN and TURN servers' logic: which datagrams get a binding response,
//! the STUN server's defaults, and the TURN server's credential table.
use vstd::prelude::*;

use stun_rs::methods::BINDING;
use stun_rs::{MessageClass, MessageDecoderBuilder};

use crate::text::{owned, str_chars, str_eq, string_of};

verus! {

/// STUN message classes.
#[derive(Debug, Clone, Copy, PartialEq, Eq, Structural)]
pub enum StunClass {
    Request,
    Indication,
    SuccessResponse,
    ErrorResponse,
}

/// What `stun_rs`'s default `MessageDecoder` makes of a datagram: the
/// message's method number, class and transaction id, or `None` when it does
/// not decode.
pub uninterp spec fn stun_decoded(data: Seq<u8>) -> Option<(u16, StunClass, Seq<u8>)>;

pub open spec fn decoded_view(r: Option<(u16, StunClass, Vec<u8>)>) -> Option<(u16, StunClass, Seq<u8>)> {
    match r {
        Some(m) => Some((m.0, m.1, m.2@)),
        None => None,
    }
}

/// Decodes a datagram with a default `MessageDecoder` and reads the
/// message's method, class and transaction id.
/// Trusted: the outcome is a function of the bytes.
#[verifier::external_body]
fn decode_stun(data: &[u8]) -> (r: Option<(u16, StunClass, Vec<u8>)>)
    ensures
        decoded_view(r) == stun_decoded(data@),
{
    let decoder = MessageDecoderBuilder::default().build();
    match decoder.decode(data) {
        Ok((message, _)) => {
            let class = match message.class() {
                MessageClass::Request => StunClass::Request,
                MessageClass::Indication => StunClass::Indication,
                MessageClass::SuccessResponse => StunClass::SuccessResponse,
                MessageClass::ErrorResponse => StunClass::ErrorResponse,
            };
            Some((message.method().as_u16(), class, message.transaction_id().as_bytes().to_vec()))
        },
        Err(_) => None,
    }
}

/// The STUN binding method number.
pub const BINDING_METHOD: u16 = 1;

/// What the STUN server does with a datagram.
#[derive(Debug, Clone)]
pub enum StunOutcome {
    /// A binding request: answer with a success response for this transaction id.
    Reply(Vec<u8>),
    /// A STUN message of another method or class: ignored.
    Unsupported,
    /// Not a STUN message: ignored.
    Undecodable,
}

/// The server's choice for a decoded message (see `StunOutcome`).
pub open spec fn stun_outcome_spec(d: Option<(u16, StunClass, Seq<u8>)>) -> Option<Option<Seq<u8>>> {
    match d {
        None => None,
        Some(m) => if m.0 == BINDING_METHOD && m.1 == StunClass::Request {
            Some(Some(m.2))
        } else {
            Some(None)
        },
    }
}

pub open spec fn outcome_view(o: StunOutcome) -> Option<Option<Seq<u8>>> {
    match o {
        StunOutcome::Reply(t) => Some(Some(t@)),
        StunOutcome::Unsupported => Some(None),
        StunOutcome::Undecodable => None,
    }
}

/// The answer to a decoded datagram (see `stun_outcome_spec`): only a
/// binding request is answered, with its transaction id.
pub fn stun_outcome(decoded: Option<(u16, StunClass, Vec<u8>)>) -> (r: StunOutcome)
    ensures
        outcome_view(r) == stun_outcome_spec(decoded_view(decoded)),
{
    match decoded {
        None => StunOutcome::Undecodable,
        Some((method, class, txid)) => {
            if method == BINDING_METHOD && class == StunClass::Request {
                StunOutcome::Reply(txid)
            } else {
                StunOutcome::Unsupported
            }
        },
    }
}

/// Decides how to answer a datagram: only a binding request is answered.
pub fn classify_stun(data: &[u8]) -> (r: StunOutcome)
    ensures
        outcome_view(r) == stun_outcome_spec(stun_decoded(data@)),
{
    stun_outcome(decode_stun(data))
}

/// The STUN server's settings: the IPv4 address and port it binds and the
/// software name it reports.
#[derive(Debug, Clone)]
pub struct StunServerConfig {
    pub bind_ip: [u8; 4],
    pub port: u16,
    pub software: String,
}

/// The STUN port.
pub const DEFAULT_STUN_PORT: u16 = 3478;

impl StunServerConfig {
    /// All interfaces, port 3478, software "stun-server-rs/0.1.0".
    pub fn default_config() -> (r: Self)
        ensures
            r.bind_ip@ == seq![0u8, 0u8, 0u8, 0u8],
            r.port == DEFAULT_STUN_PORT,
            r.software@ == "stun-server-rs/0.1.0"@,
    {
        let r = StunServerConfig { bind_ip: [0, 0, 0, 0], port: DEFAULT_STUN_PORT, software: owned("stun-server-rs/0.1.0") };
        assert(r.bind_ip@ == seq![0u8, 0u8, 0u8, 0u8]);
        r
    }
}

/// The TURN long-term credential key of `turn::auth::generate_auth_key` for
/// a user, realm and password.
pub uninterp spec fn auth_key_of(username: Seq<char>, realm: Seq<char>, password: Seq<char>) -> Seq<u8>;

/// Computes a TURN credential key with `turn::auth::generate_auth_key`.
/// Trusted: the key is a function of the three strings.
#[verifier::external_body]
fn auth_key(username: &str, realm: &str, password: &str) -> (r: Vec<u8>)
    ensures
        r@ == auth_key_of(username@, realm@, password@),
{
    turn::auth::generate_auth_key(username, realm, password)
}

/// The pieces of `s` between separators, as `str::split` yields them (an
/// empty text is one empty piece).
pub open spec fn split_on(s: Seq<char>, sep: char) -> Seq<Seq<char>>
    decreases s.len(),
{
    if s.len() == 0 {
        seq![Seq::empty()]
    } else {
        let r = split_on(s.drop_last(), sep);
        if s.last() == sep {
            r.push(Seq::empty())
        } else {
            r.update(r.len() - 1, r.last().push(s.last()))
        }
    }
}

proof fn lemma_split_on_nonempty(s: Seq<char>, sep: char)
    ensures
        split_on(s, sep).len() >= 1,
    decreases s.len(),
{
    if s.len() > 0 {
        lemma_split_on_nonempty(s.drop_last(), sep);
    }
}

/// Position of the first `c` in `s`, if any.
pub open spec fn first_index_of(s: Seq<char>, c: char) -> Option<int>
    decreases s.len(),
{
    if s.len() == 0 {
        None
    } else {
        match first_index_of(s.drop_last(), c) {
            Some(i) => Some(i),
            None => if s.last() == c {
                Some(s.len() - 1)
            } else {
                None
            },
        }
    }
}

/// A `user=pass` entry: the user name before the first `=`, the password after it.
pub open spec fn user_and_password(p: Seq<char>) -> (Seq<char>, Seq<char>) {
    let i = first_index_of(p, '=').unwrap();
    (p.take(i), p.skip(i + 1))
}

/// Every entry of a users list (`user=pass,user=pass`) holds an `=`.
pub open spec fn users_well_formed(users: Seq<char>) -> bool {
    forall|k: int| 0 <= k < split_on(users, ',').len() ==> first_index_of(#[trigger] split_on(users, ',')[k], '=') is Some
}

/// The credential table built from a users list: for each entry, in order,
/// the user name and the key of its password in `realm`.
pub open spec fn credentials_spec(users: Seq<char>, realm: Seq<char>) -> Seq<(Seq<char>, Seq<u8>)> {
    split_on(users, ',').map_values(
        |p: Seq<char>|
            (user_and_password(p).0, auth_key_of(user_and_password(p).0, realm, user_and_password(p).1)),
    )
}

/// The key stored for `user`: the last entry for that name wins, as when
/// inserting the entries into a map in order.
pub open spec fn lookup_spec(entries: Seq<(Seq<char>, Seq<u8>)>, user: Seq<char>) -> Option<Seq<u8>>
    decreases entries.len(),
{
    if entries.len() == 0 {
        None
    } else if entries.last().0 == user {
        Some(entries.last().1)
    } else {
        lookup_spec(entries.drop_last(), user)
    }
}

pub open spec fn pieces_view(ps: Seq<Vec<char>>) -> Seq<Seq<char>> {
    ps.map_values(|p: Vec<char>| p@)
}

/// Cuts characters at a separator (see `split_on`).
fn split_chars(chars: &Vec<char>, sep: char) -> (r: Vec<Vec<char>>)
    ensures
        pieces_view(r@) == split_on(chars@, sep),
{
    let mut done: Vec<Vec<char>> = Vec::new();
    let mut cur: Vec<char> = Vec::new();
    let mut k: usize = 0;
    while k < chars.len()
        invariant
            k <= chars@.len(),
            pieces_view(done@).push(cur@) == split_on(chars@.take(k as int), sep),
        decreases chars@.len() - k,
    {
        let c = chars[k];
        let ghost before = split_on(chars@.take(k as int), sep);
        proof {
            assert(chars@.take(k + 1).drop_last() == chars@.take(k as int));
            assert(chars@.take(k + 1).last() == c);
        }
        if c == sep {
            let ghost old_done = pieces_view(done@);
            let finished = cur;
            done.push(finished);
            cur = Vec::new();
            proof {
                assert(pieces_view(done@) == old_done.push(finished@));
                assert(pieces_view(done@).push(cur@) == before.push(Seq::empty()));
            }
        } else {
            cur.push(c);
            proof {
                assert(pieces_view(done@).push(cur@) =~= before.update(before.len() - 1, before.last().push(c)));
            }
        }
        k = k + 1;
    }
    proof {
        assert(chars@.take(chars@.len() as int) == chars@);
    }
    let ghost old_done = pieces_view(done@);
    done.push(cur);
    proof {
        assert(pieces_view(done@) == old_done.push(cur@));
    }
    done
}

/// Position of the first `c` in `chars`.
fn find_char(chars: &Vec<char>, c: char) -> (r: Option<usize>)
    ensures
        match r {
            Some(i) => first_index_of(chars@, c) == Some(i as int),
            None => first_index_of(chars@, c) is None,
        },
{
    let mut i: usize = 0;
    while i < chars.len()
        invariant
            i <= chars@.len(),
            first_index_of(chars@.take(i as int), c) is None,
        decreases chars@.len() - i,
    {
        proof {
            assert(chars@.take(i + 1).drop_last() == chars@.take(i as int));
        }
        if chars[i] == c {
            proof {
                lemma_first_index_extends(chars@, c, i + 1);
            }
            return Some(i);
        }
        i = i + 1;
    }
    proof {
        assert(chars@.take(chars@.len() as int) == chars@);
    }
    None
}

proof fn lemma_first_index_extends(s: Seq<char>, c: char, k: int)
    requires
        0 < k <= s.len(),
        first_index_of(s.take(k), c) is Some,
    ensures
        first_index_of(s, c) == first_index_of(s.take(k), c),
    decreases s.len() - k,
{
    if k < s.len() {
        assert(s.take(k + 1).drop_last() == s.take(k));
        lemma_first_index_extends(s, c, k + 1);
    } else {
        assert(s.take(k) == s);
    }
}

proof fn lemma_first_index_bound(s: Seq<char>, c: char)
    ensures
        first_index_of(s, c) matches Some(i) ==> 0 <= i < s.len() && s[i] == c,
    decreases s.len(),
{
    if s.len() > 0 {
        lemma_first_index_bound(s.drop_last(), c);
    }
}

/// The TURN server's credential table: user names with their keys, in the
/// order the users were given.
pub struct CredentialStore {
    entries: Vec<(String, Vec<u8>)>,
}

pub open spec fn entries_view(es: Seq<(String, Vec<u8>)>) -> Seq<(Seq<char>, Seq<u8>)> {
    es.map_values(|e: (String, Vec<u8>)| (e.0@, e.1@))
}

impl CredentialStore {
    pub closed spec fn view_entries(&self) -> Seq<(Seq<char>, Seq<u8>)> {
        entries_view(self.entries@)
    }

    /// Builds the table from a users list `user=pass,user=pass` (see
    /// `credentials_spec`); each entry must hold an `=`.
    pub fn from_users(users: &str, realm: &str) -> (r: Self)
        requires
            users_well_formed(users@),
        ensures
            r.view_entries() == credentials_spec(users@, realm@),
    {
        let chars = str_chars(users);
        let pieces = split_chars(&chars, ',');
        let ghost ps = split_on(users@, ',');
        let mut entries: Vec<(String, Vec<u8>)> = Vec::new();
        let mut k: usize = 0;
        while k < pieces.len()
            invariant
                pieces_view(pieces@) == ps,
                ps == split_on(users@, ','),
                users_well_formed(users@),
                k <= pieces@.len(),
                entries_view(entries@) == credentials_spec(users@, realm@).take(k as int),
            decreases pieces@.len() - k,
        {
            let piece = &pieces[k];
            proof {
                assert(piece@ == ps[k as int]);
                assert(first_index_of(ps[k as int], '=') is Some);
                lemma_first_index_bound(piece@, '=');
            }
            let eq = find_char(piece, '=');
            let i = match eq {
                Some(i) => i,
                None => {
                    proof {
                        assert(false);
                    }
                    0
                },
            };
            let plen = piece.len();
            assert(i < plen);
            let user = string_of(piece, 0, i);
            let password = string_of(piece, i + 1, plen);
            let key = auth_key(user.as_str(), realm, password.as_str());
            let ghost old_entries = entries_view(entries@);
            proof {
                assert(user@ == user_and_password(piece@).0);
                assert(password@ == user_and_password(piece@).1);
            }
            entries.push((user, key));
            proof {
                assert(entries_view(entries@) == old_entries.push((user@, key@)));
                assert(credentials_spec(users@, realm@).take(k + 1) == credentials_spec(users@, realm@).take(
                    k as int,
                ).push((user@, key@)));
            }
            k = k + 1;
        }
        proof {
            assert(credentials_spec(users@, realm@).take(k as int) == credentials_spec(users@, realm@));
        }
        CredentialStore { entries }
    }

    /// The key of a user (see `lookup_spec`); `None` refuses the user.
    pub fn auth_handle(&self, username: &str) -> (r: Option<Vec<u8>>)
        ensures
            crate::annexb::opt_bytes_view(r) == lookup_spec(self.view_entries(), username@),
    {
        let ghost es = entries_view(self.entries@);
        let mut found: Option<Vec<u8>> = None;
        let mut k: usize = 0;
        while k < self.entries.len()
            invariant
                es == entries_view(self.entries@),
                k <= self.entries@.len(),
                crate::annexb::opt_bytes_view(found) == lookup_spec(es.take(k as int), username@),
            decreases self.entries@.len() - k,
        {
            proof {
                assert(es.take(k + 1).drop_last() == es.take(k as int));
                assert(es.take(k + 1).last() == es[k as int]);
            }
            let entry = &self.entries[k];
            if str_eq(entry.0.as_str(), username) {
                found = Some(entry.1.clone());
            }
            k = k + 1;
        }
        proof {
            assert(es.take(self.entries@.len() as int) == es);
        }
        found
    }
}

} // verus!
