use vstd::prelude::*;
use vstd::bytes::spec_u64_from_le_bytes;
use solana_program::program_pack::Pack;
use crate::wire::Pubkey;

verus! {

/// A 4-byte option tag of the SPL token layout: `[0,0,0,0]` for none, `[1,0,0,0]` for some.
pub open spec fn coption_tag_ok(tag: Seq<u8>) -> bool {
    tag == seq![0u8, 0u8, 0u8, 0u8] || tag == seq![1u8, 0u8, 0u8, 0u8]
}

/// The token amount that `spl_token::state::Account::unpack` reads from account
/// data, as spl-token 3.5 lays an account out: 165 bytes; the amount is the
/// little-endian word at offset 64; the option tags at offsets 72, 109 and 129
/// must be valid; the state byte at offset 108 must be 1 (initialized) or
/// 2 (frozen). Any other data is refused.
pub open spec fn token_account_amount_of(data: Seq<u8>) -> Option<u64> {
    if data.len() == 165 && coption_tag_ok(data.subrange(72, 76)) && (data[108] == 1u8
        || data[108] == 2u8) && coption_tag_ok(data.subrange(109, 113)) && coption_tag_ok(
        data.subrange(129, 133),
    ) {
        Some(spec_u64_from_le_bytes(data.subrange(64, 72)))
    } else {
        None
    }
}

/// Calls `spl_token::state::Account::unpack` (the `Pack` default: length check,
/// `unpack_from_slice`, then the initialized check) and keeps the `amount`.
/// The contract restates, from the spl-token 3.5 source, when the unpack
/// succeeds and where the amount is read.
#[verifier::external_body]
pub(crate) fn token_account_amount(data: &[u8]) -> (r: Option<u64>)
    ensures
        r == token_account_amount_of(data@),
{
    match spl_token::state::Account::unpack(data) {
        Ok(account) => Some(account.amount),
        Err(_) => None,
    }
}

/// The spl-token program id, `TokenkegQfeZyiNwAJbNbGKPFXCWuBvf9Ss623VQ5DA`, as bytes.
pub open spec fn spl_token_program_id() -> Seq<u8> {
    seq![
        6u8, 221u8, 246u8, 225u8, 215u8, 101u8, 161u8, 147u8, 217u8, 203u8, 225u8, 70u8, 206u8,
        235u8, 121u8, 172u8, 28u8, 180u8, 133u8, 237u8, 95u8, 91u8, 55u8, 145u8, 58u8, 140u8,
        245u8, 133u8, 126u8, 255u8, 0u8, 169u8,
    ]
}

/// Whether spl-token accepts `key` as the token program's id: it must be the
/// spl-token program id.
pub open spec fn token_program_accepted(key: Seq<u8>) -> bool {
    key == spl_token_program_id()
}

/// Calls `spl_token::check_program_account`, which every spl-token
/// instruction builder runs first (the builders fail where it fails); it
/// accepts exactly the spl-token program id.
#[verifier::external_body]
pub(crate) fn check_token_program(key: &Pubkey) -> (r: bool)
    ensures
        r == token_program_accepted(key@),
{
    spl_token::check_program_account(&solana_program::pubkey::Pubkey::new_from_array(*key)).is_ok()
}

/// The program-derived address, with its bump seed, that solana-program finds
/// for one seed and a program: the first bump from 255 down whose SHA-256 based
/// address is off the ed25519 curve, or none.
pub uninterp spec fn program_address(seed: Seq<u8>, program_id: Seq<u8>) -> Option<(Seq<u8>, u8)>;

/// Calls `Pubkey::try_find_program_address(&[seed], program_id)` of
/// solana-program. The result is named, not stated: it depends only on the
/// seed and the program id. It is `None` where `find_program_address` would panic.
#[verifier::external_body]
pub(crate) fn try_find_program_address(seed: &[u8], program_id: &Pubkey) -> (r: Option<(Pubkey, u8)>)
    ensures
        r is None <==> program_address(seed@, program_id@) is None,
        r matches Some((key, bump)) ==> program_address(seed@, program_id@) == Some((key@, bump)),
{
    let program = solana_program::pubkey::Pubkey::new_from_array(*program_id);
    match solana_program::pubkey::Pubkey::try_find_program_address(&[seed], &program) {
        Some((key, bump)) => Some((key.to_bytes(), bump)),
        None => None,
    }
}

} // verus!
