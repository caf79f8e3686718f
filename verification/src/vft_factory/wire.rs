//! The bytes of the values that requests carry.
//!
//! A request is framed here, as the concatenation of its parts; the bytes of
//! each part are those that the host's codec gives (`Encode` of the
//! `parity-scale-codec` crate, as `sails_rs` hands it on). The functions whose
//! names begin with `outside_` call the codec; they are believed, not proved.
//!
//! The codec writes the length of a text or of a list as a number below 2^32,
//! and does not return where the length is larger: such a text or list is
//! left out by `requires`, and `text_is_short` and `list_is_short` test for it.

use vstd::prelude::*;
use vstd::string::StringSliceAdditionalSpecFns;
use crate::primitives::{ActorId, U256};

verus! {

/// The bytes of a text: its length in the codec's compact form, then its
/// UTF-8 bytes.
pub uninterp spec fn encoded_text(text: Seq<char>) -> Seq<u8>;

/// The bytes of a list of accounts: its length in the codec's compact form,
/// then the 32 bytes of each account.
pub uninterp spec fn encoded_accounts(accounts: Seq<ActorId>) -> Seq<u8>;

/// The text has a length that the codec can write: at most 2^32 - 1 bytes.
pub open spec fn text_fits(text: Seq<char>) -> bool {
    vstd::utf8::encode_utf8(text).len() <= u32::MAX
}

/// The list has a length that the codec can write: at most 2^32 - 1 accounts.
pub open spec fn list_fits(accounts: Seq<ActorId>) -> bool {
    accounts.len() <= u32::MAX
}

/// The bytes of an account: its 32 bytes.
pub open spec fn encoded_account(account: ActorId) -> Seq<u8> {
    account.bytes@
}

/// Byte `j` of a limb, least significant first.
pub open spec fn limb_byte(limb: u64, j: int) -> u8 {
    ((limb >> ((8 * j) as u64)) & 0xff) as u8
}

/// The bytes of an amount: 32 bytes, least significant first.
pub open spec fn encoded_amount(amount: U256) -> Seq<u8> {
    Seq::new(32, |i: int| limb_byte(amount.limbs@[i / 8], i % 8))
}

/// Calls `Encode::encode` on a `str`, which writes the text as the codec
/// writes a byte slice: length, then bytes. It panics on a text of more than
/// 2^32 - 1 bytes, which is left out.
#[verifier::external_body]
pub(crate) fn outside_encode_text(text: &str) -> (r: Vec<u8>)
    requires
        text.spec_bytes().len() <= u32::MAX,
    ensures
        r@ == encoded_text(text@),
{
    sails_rs::Encode::encode(text)
}

/// Calls `Encode::encode` on a `sails_rs::ActorId`, which writes its 32 bytes
/// and nothing else.
#[verifier::external_body]
pub(crate) fn outside_encode_account(account: ActorId) -> (r: Vec<u8>)
    ensures
        r@ == encoded_account(account),
{
    sails_rs::Encode::encode(&sails_rs::ActorId::new(account.bytes))
}

/// Calls `Encode::encode` on a `sails_rs::U256`, which writes the four limbs
/// in little-endian order: 32 bytes.
#[verifier::external_body]
pub(crate) fn outside_encode_amount(amount: U256) -> (r: Vec<u8>)
    ensures
        r@ == encoded_amount(amount),
{
    sails_rs::Encode::encode(&sails_rs::U256(amount.limbs))
}

/// Calls `Encode::encode` on a `Vec` of `sails_rs::ActorId`, which writes the
/// length and then each account. It panics on a list of more than 2^32 - 1
/// accounts, which is left out.
#[verifier::external_body]
pub(crate) fn outside_encode_accounts(accounts: &Vec<ActorId>) -> (r: Vec<u8>)
    requires
        accounts@.len() <= u32::MAX,
    ensures
        r@ == encoded_accounts(accounts@),
{
    let converted: Vec<sails_rs::ActorId> =
        accounts.iter().map(|a| sails_rs::ActorId::new(a.bytes)).collect();
    sails_rs::Encode::encode(&converted)
}

/// Whether the codec can write the length of `text`.
pub fn text_is_short(text: &str) -> (r: bool)
    ensures
        r == text_fits(text@),
        r == (text.spec_bytes().len() <= u32::MAX),
{
    text.as_bytes().len() <= 0xFFFF_FFFF
}

/// Whether the codec can write the length of `accounts`.
pub fn list_is_short(accounts: &Vec<ActorId>) -> (r: bool)
    ensures
        r == list_fits(accounts@),
{
    accounts.len() <= 0xFFFF_FFFF
}

/// The bytes of two parts, one after the other.
pub fn join(first: Vec<u8>, second: Vec<u8>) -> (r: Vec<u8>)
    ensures
        r@ == first@ + second@,
{
    let mut bytes = first;
    let mut rest = second;
    bytes.append(&mut rest);
    bytes
}

/// The bytes of a request, from the bytes of its parts: the service's name,
/// the method's name, the arguments.
pub fn frame(service: Vec<u8>, method: Vec<u8>, arguments: Vec<u8>) -> (r: Vec<u8>)
    ensures
        r@ == service@ + method@ + arguments@,
{
    join(join(service, method), arguments)
}

/// The bytes that instantiate a ledger, from the bytes of their parts: the
/// constructor's name, then the ledger's name, symbol, decimals and admins.
/// The number of decimals is its own one byte.
pub fn frame_constructor(
    constructor: Vec<u8>,
    name: Vec<u8>,
    symbol: Vec<u8>,
    decimals: u8,
    admins: Vec<u8>,
) -> (r: Vec<u8>)
    ensures
        r@ == constructor@ + name@ + symbol@ + seq![decimals] + admins@,
{
    let mut bytes = join(join(constructor, name), symbol);
    bytes.push(decimals);
    proof {
        assert(bytes@ =~= constructor@ + name@ + symbol@ + seq![decimals]);
    }
    join(bytes, admins)
}

} // verus!
