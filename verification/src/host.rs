//! The Soroban host as the library sees it: the outside types that events
//! carry, and the trusted wrappers around the SDK calls the library makes.
//!
//! Host values (addresses, symbols, byte strings, host vectors, `Val`s) are
//! opaque here: the library carries them into event payloads and hands them
//! back to the host, but never looks inside them.

use vstd::prelude::*;
use soroban_sdk::{Address, Bytes, BytesN, Env, IntoVal, Symbol, Val};

verus! {

/// The contract environment handle.
#[verifier::external_type_specification]
#[verifier::external_body]
pub struct ExEnv(soroban_sdk::Env);

/// An account or contract address.
#[verifier::external_type_specification]
#[verifier::external_body]
pub struct ExAddress(soroban_sdk::Address);

/// A host symbol (up to 32 characters from `a-zA-Z0-9_`).
#[verifier::external_type_specification]
#[verifier::external_body]
pub struct ExSymbol(soroban_sdk::Symbol);

/// A host byte string.
#[verifier::external_type_specification]
#[verifier::external_body]
pub struct ExBytes(soroban_sdk::Bytes);

/// A host byte string of fixed length `N`.
#[verifier::external_type_specification]
#[verifier::external_body]
pub struct ExBytesN<const N: usize>(soroban_sdk::BytesN<N>);

/// A host vector.
#[verifier::external_type_specification]
#[verifier::external_body]
#[verifier::reject_recursive_types(T)]
pub struct ExHostVec<T>(soroban_sdk::Vec<T>);

/// A raw host value, as events carry their data.
#[verifier::external_type_specification]
#[verifier::external_body]
pub struct ExVal(soroban_sdk::Val);

/// Whether a character may stand in a symbol: `a-z`, `A-Z`, `0-9` or `_`.
pub open spec fn is_symbol_char(c: char) -> bool {
    ||| ('a' <= c && c <= 'z')
    ||| ('A' <= c && c <= 'Z')
    ||| ('0' <= c && c <= '9')
    ||| c == '_'
}

/// Whether a string fits a small symbol: at most nine symbol characters.
pub open spec fn is_short_symbol(s: Seq<char>) -> bool {
    &&& s.len() <= 9
    &&& forall|i: int| 0 <= i < s.len() ==> is_symbol_char(#[trigger] s[i])
}

/// The small symbol spelled by a string; `Symbol::short` is a function of
/// the characters alone (it packs them into the symbol's value).
pub uninterp spec fn short_symbol_of(name: Seq<char>) -> Symbol;

/// What a host vector of values holds, in order.
pub uninterp spec fn host_vals(v: soroban_sdk::Vec<Val>) -> Seq<Val>;

/// The host value of a `u32`, which holds the number inside the value itself.
pub uninterp spec fn u32_host_val(x: u32) -> Val;

/// The host value of a `u64` below 2^56, which holds the number inside the
/// value itself.
pub uninterp spec fn small_u64_host_val(x: u64) -> Val;

/// The host value of an `i128` in [-2^55, 2^55), which holds the number inside
/// the value itself.
pub uninterp spec fn small_i128_host_val(x: i128) -> Val;

/// The host value of a host vector of values: the handle of its host object.
pub uninterp spec fn val_list_host_val(v: soroban_sdk::Vec<Val>) -> Val;

/// The host value of an address: the handle of its host object.
pub uninterp spec fn address_host_val(a: Address) -> Val;

/// The host value of a symbol: the symbol's own value.
pub uninterp spec fn symbol_host_val(s: Symbol) -> Val;

/// The host value of a byte string: the handle of its host object.
pub uninterp spec fn bytes_host_val(b: Bytes) -> Val;

/// The host value of a 32-byte string: the handle of its host object.
pub uninterp spec fn hash_host_val(h: BytesN<32>) -> Val;

/// The host value of a host vector of `u64`: the handle of its host object.
pub uninterp spec fn u64_list_host_val(v: soroban_sdk::Vec<u64>) -> Val;

/// Reads the close time of the current ledger: `Ledger::timestamp`, reached
/// through `Env::ledger`.  The value depends on the ledger the contract runs
/// in, so nothing is claimed of it.
#[verifier::external_body]
pub(crate) fn ledger_timestamp(env: &Env) -> (t: u64) {
    env.ledger().timestamp()
}

/// `Clone::clone` of `Address` (derived: it copies the environment handle and
/// the host object handle).  The copy is claimed to equal the original.
#[verifier::external_body]
pub(crate) fn clone_address(a: &Address) -> (r: Address)
    ensures
        r == *a,
{
    a.clone()
}

/// `Clone::clone` of `Symbol` (derived).  The copy is claimed to equal the
/// original.
#[verifier::external_body]
pub(crate) fn clone_symbol(s: &Symbol) -> (r: Symbol)
    ensures
        r == *s,
{
    s.clone()
}

/// `Clone::clone` of `Bytes` (derived; copies the object handle).  The copy is
/// claimed to equal the original.
#[verifier::external_body]
pub(crate) fn clone_bytes(b: &Bytes) -> (r: Bytes)
    ensures
        r == *b,
{
    b.clone()
}

/// `Clone::clone` of `BytesN<32>` (derived).  The copy is claimed to equal the
/// original.
#[verifier::external_body]
pub(crate) fn clone_hash(h: &BytesN<32>) -> (r: BytesN<32>)
    ensures
        r == *h,
{
    h.clone()
}

/// `Clone::clone` of a host vector of `u64` (derived; copies the object
/// handle).  The copy is claimed to equal the original.
#[verifier::external_body]
pub(crate) fn clone_u64_list(v: &soroban_sdk::Vec<u64>) -> (r: soroban_sdk::Vec<u64>)
    ensures
        r == *v,
{
    v.clone()
}

/// `Symbol::short`, the function behind `symbol_short!`: packs at most nine
/// symbol characters into a small symbol, and panics on anything else, which
/// `requires` leaves out.  The result is the name `short_symbol_of` of the
/// characters.
#[verifier::external_body]
#[allow(deprecated)]
pub(crate) fn short_symbol(name: &str) -> (r: Symbol)
    requires
        is_short_symbol(name@),
    ensures
        r == short_symbol_of(name@),
{
    Symbol::short(name)
}

/// `soroban_sdk::Vec::<Val>::new`: an empty host vector.
#[verifier::external_body]
pub(crate) fn new_val_list(env: &Env) -> (r: soroban_sdk::Vec<Val>)
    ensures
        host_vals(r) == Seq::<Val>::empty(),
{
    soroban_sdk::Vec::new(env)
}

/// `soroban_sdk::Vec::<Val>::push_back`: the host makes a vector that holds
/// the old items followed by `v`, and `list` takes its handle.
#[verifier::external_body]
pub(crate) fn push_val(list: &mut soroban_sdk::Vec<Val>, v: Val)
    ensures
        host_vals(*final(list)) == host_vals(*old(list)).push(v),
{
    list.push_back(v)
}

/// `IntoVal` of `u32` (`Val::from_u32`): the number held inside the value.
#[verifier::external_body]
pub(crate) fn u32_val(env: &Env, x: u32) -> (r: Val)
    ensures
        r == u32_host_val(x),
{
    x.into_val(env)
}

/// `IntoVal` of `u64`: a number below 2^56 (`is_small_u64`) is held inside
/// the value; a larger one gets a new host object, whose handle depends on
/// the host's state, so nothing is claimed of it.
#[verifier::external_body]
pub(crate) fn u64_val(env: &Env, x: u64) -> (r: Val)
    ensures
        x < 0x100_0000_0000_0000 ==> r == small_u64_host_val(x),
{
    x.into_val(env)
}

/// `IntoVal` of `i128`: a number in [-2^55, 2^55) (`is_small_i128`) is held
/// inside the value; any other gets a new host object, whose handle depends on
/// the host's state, so nothing is claimed of it.
#[verifier::external_body]
pub(crate) fn i128_val(env: &Env, x: i128) -> (r: Val)
    ensures
        -0x80_0000_0000_0000 <= x < 0x80_0000_0000_0000 ==> r == small_i128_host_val(x),
{
    x.into_val(env)
}

/// `IntoVal` of `&Address`: the address's host object as a value.
#[verifier::external_body]
pub(crate) fn address_val(env: &Env, a: &Address) -> (r: Val)
    ensures
        r == address_host_val(*a),
{
    a.into_val(env)
}

/// `IntoVal` of `&Symbol`: the symbol as a host value.
#[verifier::external_body]
pub(crate) fn symbol_val(env: &Env, s: &Symbol) -> (r: Val)
    ensures
        r == symbol_host_val(*s),
{
    s.into_val(env)
}

/// `IntoVal` of `&Bytes`: the byte string's host object as a value.
#[verifier::external_body]
pub(crate) fn bytes_val(env: &Env, b: &Bytes) -> (r: Val)
    ensures
        r == bytes_host_val(*b),
{
    b.into_val(env)
}

/// `IntoVal` of `&BytesN<32>`: the byte string's host object as a value.
#[verifier::external_body]
pub(crate) fn hash_val(env: &Env, h: &BytesN<32>) -> (r: Val)
    ensures
        r == hash_host_val(*h),
{
    h.into_val(env)
}

/// `IntoVal` of `&soroban_sdk::Vec<u64>`: the vector's host object as a value.
#[verifier::external_body]
pub(crate) fn u64_list_val(env: &Env, v: &soroban_sdk::Vec<u64>) -> (r: Val)
    ensures
        r == u64_list_host_val(*v),
{
    v.into_val(env)
}

/// `IntoVal` of `&soroban_sdk::Vec<Val>`: the vector's host object as a value.
#[verifier::external_body]
pub(crate) fn val_list_val(env: &Env, v: &soroban_sdk::Vec<Val>) -> (r: Val)
    ensures
        r == val_list_host_val(*v),
{
    v.into_val(env)
}

/// `Events::publish` with the one-topic tuple `(topic,)` and the data vector:
/// records a contract event on the host.  The event log lives in the host
/// behind `&Env`, so nothing is claimed of it here.
#[verifier::external_body]
#[allow(deprecated)]
pub(crate) fn publish(env: &Env, topic: Symbol, data: soroban_sdk::Vec<Val>) {
    env.events().publish((topic,), data)
}

} // verus!
