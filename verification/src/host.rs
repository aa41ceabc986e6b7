//! The Soroban host as the library sees it.
//!
//! Values of the host types are handles: the library carries them and hands
//! them back, and never looks inside. The host calls declared here only
//! compute on such values; none reads or writes the storage or asks for the
//! time. In contracts, two such values are equal when they denote the same
//! address, the same bytes or the same text, whatever handle carries them;
//! the host compares them by content as well.

use soroban_sdk::{Address, BytesN, Env};
use vstd::prelude::*;

verus! {

/// `soroban_sdk::Env`: the handle to the host. The library uses it for one
/// thing, to have the host make an empty vector. Opaque.
#[verifier::external_type_specification]
#[verifier::external_body]
pub struct ExEnv(Env);

/// `soroban_sdk::Address`: an account or contract address. Opaque.
#[verifier::external_type_specification]
#[verifier::external_body]
pub struct ExAddress(Address);

/// `soroban_sdk::BytesN`: a byte string of fixed length held by the host.
/// Opaque; see [`digest_bytes`] for the bytes of a 32-byte digest.
#[verifier::external_type_specification]
#[verifier::external_body]
pub struct ExBytesN<const N: usize>(BytesN<N>);

/// `soroban_sdk::String`: a text held by the host. Opaque.
#[verifier::external_type_specification]
#[verifier::external_body]
pub struct ExString(soroban_sdk::String);

/// `soroban_sdk::Vec`: a vector held by the host. Opaque; see [`id_list`] for
/// the items of a vector of ids.
#[verifier::external_type_specification]
#[verifier::external_body]
#[verifier::reject_recursive_types(T)]
pub struct ExVec<T>(soroban_sdk::Vec<T>);

/// `Clone::clone` of `soroban_sdk::Address` copies the handle: the copy
/// denotes the same address.
pub assume_specification[ <Address as Clone>::clone ](address: &Address) -> (copy: Address)
    ensures
        copy == *address,
;

/// `Clone::clone` of `soroban_sdk::BytesN` copies the handle: the copy denotes
/// the same bytes. The derived `Clone` of the records that hold a digest calls
/// it.
pub assume_specification<const N: usize>[ <BytesN<N> as Clone>::clone ](bytes: &BytesN<N>) -> (copy:
    BytesN<N>)
    ensures
        copy == *bytes,
;

/// `Clone::clone` of `soroban_sdk::String` copies the handle: the copy denotes
/// the same text.
pub assume_specification[ <soroban_sdk::String as Clone>::clone ](text: &soroban_sdk::String) -> (copy:
    soroban_sdk::String)
    ensures
        copy == *text,
;

/// The 32 bytes of a digest, as `BytesN::<32>::to_array` copies them out of
/// the host.
pub uninterp spec fn digest_bytes(digest: BytesN<32>) -> Seq<u8>;

/// Calls `BytesN::<32>::to_array`, which copies the bytes of the host object
/// into a fresh array. The contract gives those bytes their name and claims
/// nothing else.
#[verifier::external_body]
pub(crate) fn digest_array(digest: &BytesN<32>) -> (bytes: [u8; 32])
    ensures
        bytes@ == digest_bytes(*digest),
{
    digest.to_array()
}

/// Whether two digests hold the same 32 bytes.
pub fn same_digest(left: &BytesN<32>, right: &BytesN<32>) -> (same: bool)
    ensures
        same == (digest_bytes(*left) == digest_bytes(*right)),
{
    let left_bytes = digest_array(left);
    let right_bytes = digest_array(right);
    let mut i: usize = 0;
    while i < 32
        invariant
            i <= 32,
            left_bytes@ == digest_bytes(*left),
            right_bytes@ == digest_bytes(*right),
            forall|j: int| 0 <= j < i ==> left_bytes@[j] == right_bytes@[j],
        decreases 32 - i,
    {
        if left_bytes[i] != right_bytes[i] {
            assert(left_bytes@[i as int] != right_bytes@[i as int]);
            return false;
        }
        i += 1;
    }
    assert(left_bytes@ =~= right_bytes@);
    true
}

/// The ids that a host vector holds, in order; `None` where one of its items
/// is no `u64`.
pub uninterp spec fn id_list(list: soroban_sdk::Vec<u64>) -> Option<Seq<u64>>;

/// Calls `Vec::<u64>::try_iter`, which converts item after item, and asks of
/// each conversion whether it succeeded: `true` exactly where every item of
/// the vector is a `u64`.
#[verifier::external_body]
pub(crate) fn holds_ids(list: &soroban_sdk::Vec<u64>) -> (held: bool)
    ensures
        held == id_list(*list) is Some,
{
    list.try_iter().all(|item| item.is_ok())
}

/// Calls `Vec::<u64>::new`: a host vector without items.
#[verifier::external_body]
pub(crate) fn new_id_list(env: &Env) -> (list: soroban_sdk::Vec<u64>)
    ensures
        id_list(list) == Some(Seq::<u64>::empty()),
{
    soroban_sdk::Vec::new(env)
}

/// Calls `Vec::<u64>::len`: the number of items, which the host counts in a
/// `u32`.
#[verifier::external_body]
pub(crate) fn id_list_len(list: &soroban_sdk::Vec<u64>) -> (len: u32)
    requires
        id_list(*list) is Some,
    ensures
        len == id_list(*list)->0.len(),
{
    list.len()
}

/// Calls `Vec::<u64>::get_unchecked` at a position below the length: the id at
/// that position.
#[verifier::external_body]
pub(crate) fn id_at(list: &soroban_sdk::Vec<u64>, position: u32) -> (id: u64)
    requires
        id_list(*list) matches Some(ids) && position < ids.len(),
    ensures
        id == id_list(*list)->0[position as int],
{
    list.get_unchecked(position)
}

/// Calls `Vec::<u64>::push_back`: the vector holds one item more, `id`, at
/// its end, and the items before it as they were.
#[verifier::external_body]
pub(crate) fn push_id(list: &mut soroban_sdk::Vec<u64>, id: u64)
    requires
        id_list(*old(list)) matches Some(ids) && ids.len() < u32::MAX,
    ensures
        id_list(*final(list)) == Some(id_list(*old(list))->0.push(id)),
{
    list.push_back(id)
}

/// Calls `PartialEq::eq` of `soroban_sdk::Address`, which lets the host
/// compare the two addresses by content: `true` exactly when both denote the
/// same address.
#[verifier::external_body]
pub(crate) fn same_address(left: &Address, right: &Address) -> (same: bool)
    ensures
        same == (*left == *right),
{
    left == right
}

} // verus!
