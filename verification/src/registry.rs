//! The signalling server's table of registered clients, kept in a `DashMap`,
//! and the client-id derivation from a MAC address.
use dashmap::DashMap;
use std::collections::hash_map::DefaultHasher;
use std::hash::{Hash, Hasher};
use vstd::prelude::*;

use crate::server_types::{ClientState, ClientStateView};
use crate::text::{hex16, hex_digits};

verus! {

#[verifier::external_type_specification]
#[verifier::external_body]
#[verifier::reject_recursive_types(K)]
#[verifier::reject_recursive_types(V)]
#[verifier::reject_recursive_types(S)]
pub struct ExDashMap<K, V, S>(DashMap<K, V, S>);

/// What a client table holds: client id to client record.
pub uninterp spec fn client_table(m: DashMap<String, ClientState>) -> Map<Seq<char>, ClientStateView>;

/// Creates an empty table with `DashMap::new`.
/// Trusted: a new map holds no entries.
#[verifier::external_body]
pub(crate) fn table_new() -> (r: DashMap<String, ClientState>)
    ensures
        client_table(r).dom() == Set::<Seq<char>>::empty(),
{
    DashMap::new()
}

/// Stores `value` under `key` with `DashMap::insert`, replacing any earlier entry.
/// Trusted: afterwards the table maps `key` to `value` and is otherwise unchanged.
#[verifier::external_body]
pub(crate) fn table_insert(m: &mut DashMap<String, ClientState>, key: String, value: ClientState)
    ensures
        client_table(*final(m)) == client_table(*old(m)).insert(key@, value@),
{
    m.insert(key, value);
}

/// Looks `key` up with `DashMap::get` and copies the record out.
/// Trusted: the result is present exactly when the table holds `key`, and then
/// equals its record (a `String` clone keeps the characters).
#[verifier::external_body]
pub(crate) fn table_get(m: &DashMap<String, ClientState>, key: &str) -> (r: Option<ClientState>)
    ensures
        r is Some <==> client_table(*m).contains_key(key@),
        r matches Some(c) ==> c@ == client_table(*m)[key@],
{
    match m.get(key) {
        Some(entry) => Some(entry.value().clone()),
        None => None,
    }
}

/// The value `DefaultHasher` produces for a string: a `DefaultHasher::new()`
/// fed the string through `Hash`, then `finish()`.
pub uninterp spec fn default_hash_of(s: Seq<char>) -> u64;

/// Hashes a string with `std`'s `DefaultHasher` (created with `new`, so with
/// fixed keys).
/// Trusted: the result is a function of the characters alone.
#[verifier::external_body]
fn default_hash(s: &str) -> (r: u64)
    ensures
        r == default_hash_of(s@),
{
    let mut hasher = DefaultHasher::new();
    s.hash(&mut hasher);
    hasher.finish()
}

/// The client id the server assigns to a MAC address: its default hash as
/// sixteen lower-case hexadecimal digits.
pub open spec fn client_id_of(mac_address: Seq<char>) -> Seq<char> {
    hex_digits(default_hash_of(mac_address) as nat, 16)
}

/// Derives a client's id from its MAC address.
pub fn generate_client_id(mac_address: &str) -> (r: String)
    ensures
        r@ == client_id_of(mac_address@),
{
    let hash = default_hash(mac_address);
    hex16(hash)
}

/// The ids are sixteen characters long, each a lower-case hexadecimal digit.
pub proof fn lemma_client_id_shape(mac_address: Seq<char>)
    ensures
        client_id_of(mac_address).len() == 16,
        forall|i: int|
            0 <= i < 16 ==> ('0' <= #[trigger] client_id_of(mac_address)[i] <= '9' || 'a'
                <= client_id_of(mac_address)[i] <= 'f'),
{
    lemma_hex_digits_shape(default_hash_of(mac_address) as nat, 16);
}

proof fn lemma_hex_digits_shape(v: nat, n: nat)
    ensures
        hex_digits(v, n).len() == n,
        forall|i: int|
            0 <= i < n ==> ('0' <= #[trigger] hex_digits(v, n)[i] <= '9' || 'a' <= hex_digits(v, n)[i]
                <= 'f'),
    decreases n,
{
    if n > 0 {
        lemma_hex_digits_shape(v / 16, (n - 1) as nat);
    }
}

} // verus!
