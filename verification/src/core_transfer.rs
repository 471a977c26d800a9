//! The Metaplex Core instruction that hands an asset to a new owner.
use vstd::prelude::*;
use anchor_lang::prelude::Pubkey;
use mpl_core::instructions::TransferV1Builder;
use crate::address::Address;
use crate::effects::{AccountMeta, Instruction, InstructionView, meta};
use crate::pda::MPL_CORE_PROGRAM_ID;

verus! {

/// An optional address, by value.
pub open spec fn opt_view(a: Option<Address>) -> Option<Seq<u8>> {
    match a {
        Some(a) => Some(a@),
        None => None,
    }
}

/// The data of a Core `TransferV1` instruction without a compression proof:
/// its discriminator, then the absent proof.
pub open spec fn core_transfer_data() -> Seq<u8> {
    seq![14u8, 0u8]
}

/// The Core `TransferV1` instruction that moves `asset` to `new_owner`: each
/// optional account left out is replaced by the Core program's own id.
pub open spec fn core_transfer(
    asset: Seq<u8>,
    collection: Option<Seq<u8>>,
    payer: Seq<u8>,
    authority: Option<Seq<u8>>,
    new_owner: Seq<u8>,
    system_program: Option<Seq<u8>>,
) -> InstructionView {
    let core = MPL_CORE_PROGRAM_ID@;
    InstructionView {
        program_id: core,
        accounts: seq![
            meta(asset, false, true),
            meta(collection.unwrap_or(core), false, false),
            meta(payer, true, true),
            match authority {
                Some(a) => meta(a, true, false),
                None => meta(core, false, false),
            },
            meta(new_owner, false, false),
            meta(system_program.unwrap_or(core), false, false),
            meta(core, false, false),
        ],
        data: core_transfer_data(),
    }
}

/// Whether `ix` is a Core transfer of `asset` to `new_owner`, signed for by
/// `authority`.
pub open spec fn moves_asset(ix: InstructionView, asset: Seq<u8>, authority: Seq<u8>, new_owner: Seq<u8>) -> bool {
    &&& ix.program_id == MPL_CORE_PROGRAM_ID@
    &&& ix.data == core_transfer_data()
    &&& ix.accounts.len() == 7
    &&& ix.accounts[0] == meta(asset, false, true)
    &&& ix.accounts[3] == meta(authority, true, false)
    &&& ix.accounts[4] == meta(new_owner, false, false)
}

/// Calls mpl-core's `TransferV1Builder` (asset, collection, payer, authority,
/// new owner and system program set; no log wrapper, no compression proof)
/// and its `instruction`. Trusted: the instruction is the one its source
/// assembles, `core_transfer` of the arguments: the Core program id, the seven
/// accounts in their order and flags, and the data `[14, 0]`.
#[verifier::external_body]
pub(crate) fn core_transfer_instruction(
    asset: &Address,
    collection: Option<Address>,
    payer: &Address,
    authority: Option<Address>,
    new_owner: &Address,
    system_program: Option<Address>,
) -> (ix: Instruction)
    ensures
        ix@ == core_transfer(
            asset@,
            opt_view(collection),
            payer@,
            opt_view(authority),
            new_owner@,
            opt_view(system_program),
        ),
{
    let key = |a: Address| Pubkey::new_from_array(a.bytes);
    let ix = TransferV1Builder::new().asset(key(*asset)).collection(collection.map(key))
        .payer(key(*payer)).authority(authority.map(key)).new_owner(key(*new_owner))
        .system_program(system_program.map(key)).instruction();
    let accounts = ix.accounts.iter().map(|m| AccountMeta {
        pubkey: Address { bytes: m.pubkey.to_bytes() },
        is_signer: m.is_signer,
        is_writable: m.is_writable,
    }).collect();
    Instruction { program_id: Address { bytes: ix.program_id.to_bytes() }, accounts, data: ix.data }
}

} // verus!
