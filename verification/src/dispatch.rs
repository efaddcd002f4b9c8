//! The instruction dispatcher: opcode parsing, payload slicing, account
//! resolution, and the all-or-nothing commit of each transition's writes.
use vstd::prelude::*;

use vstd::bytes::{spec_u64_from_le_bytes, u64_from_le_bytes};
use vstd::slice::{slice_subrange, slice_to_vec};

use crate::errors::{NadrunnerError, TokenError};
use crate::keys::Pubkey;
use crate::state::{AccountSlot, SlotView};
use crate::transitions::{
    admin_mint, initialize_mint_authority, initialize_token_account, mint_game_score,
    spec_admin_mint, spec_initialize_mint_authority, spec_initialize_token_account,
    spec_mint_game_score, spec_transfer_tokens, spec_update_mint_authority, transfer_tokens,
    update_mint_authority, MAX_GAME_MINT,
};

verus! {

/// The slots' mathematical values, in caller order.
pub open spec fn slot_views(s: Seq<AccountSlot>) -> Seq<SlotView> {
    s.map_values(|a: AccountSlot| a@)
}

/// The outcome of one instruction over the whole account list: the new
/// slot values, or the error that aborts the call with every slot
/// untouched.
///
/// The first byte is the opcode; the fixed payload follows it. Account
/// order per opcode: initialize takes (record slot, signer, rent sysvar);
/// authority rotation (authority slot, current signer); admin minting
/// (authority slot, admin, token slot); score minting (token slot,
/// player, authority slot, clock sysvar); transfer (source, destination,
/// owner).
pub open spec fn spec_process(
    pid: Seq<u8>,
    accounts: Seq<SlotView>,
    data: Seq<u8>,
    rent_exempt: bool,
) -> Result<Seq<SlotView>, TokenError> {
    if data.len() == 0 {
        Err(TokenError::InvalidInstructionData)
    } else if data[0] == 0 {
        if accounts.len() < 3 {
            Err(TokenError::NotEnoughAccountKeys)
        } else {
            match spec_initialize_token_account(pid, accounts[0], accounts[1], rent_exempt) {
                Ok(d) => Ok(accounts.update(0, accounts[0].with_data(d))),
                Err(e) => Err(e),
            }
        }
    } else if data[0] == 1 {
        if accounts.len() < 3 {
            Err(TokenError::NotEnoughAccountKeys)
        } else {
            match spec_initialize_mint_authority(pid, accounts[0], accounts[1], rent_exempt) {
                Ok(d) => Ok(accounts.update(0, accounts[0].with_data(d))),
                Err(e) => Err(e),
            }
        }
    } else if data[0] == 2 {
        if data.len() < 33 {
            Err(TokenError::InvalidInstructionData)
        } else if accounts.len() < 2 {
            Err(TokenError::NotEnoughAccountKeys)
        } else {
            match spec_update_mint_authority(
                pid,
                accounts[0],
                accounts[1],
                data.subrange(1, 33),
            ) {
                Ok(d) => Ok(accounts.update(0, accounts[0].with_data(d))),
                Err(e) => Err(e),
            }
        }
    } else if data[0] == 3 {
        if data.len() < 9 {
            Err(TokenError::InvalidInstructionData)
        } else if accounts.len() < 3 {
            Err(TokenError::NotEnoughAccountKeys)
        } else {
            match spec_admin_mint(
                pid,
                accounts[0],
                accounts[1],
                accounts[2],
                spec_u64_from_le_bytes(data.subrange(1, 9)),
            ) {
                Ok(d) => Ok(accounts.update(2, accounts[2].with_data(d))),
                Err(e) => Err(e),
            }
        }
    } else if data[0] == 4 {
        if data.len() < 73 {
            Err(TokenError::InvalidInstructionData)
        } else if spec_u64_from_le_bytes(data.subrange(1, 9)) > MAX_GAME_MINT {
            Err(TokenError::Custom(NadrunnerError::ScoreExceedsMaximum))
        } else if accounts.len() < 4 {
            Err(TokenError::NotEnoughAccountKeys)
        } else {
            match spec_mint_game_score(
                pid,
                accounts[0],
                accounts[1],
                accounts[2],
                spec_u64_from_le_bytes(data.subrange(1, 9)),
            ) {
                Ok(d) => Ok(accounts.update(0, accounts[0].with_data(d))),
                Err(e) => Err(e),
            }
        }
    } else if data[0] == 5 {
        if data.len() < 9 {
            Err(TokenError::InvalidInstructionData)
        } else if accounts.len() < 3 {
            Err(TokenError::NotEnoughAccountKeys)
        } else {
            match spec_transfer_tokens(
                pid,
                accounts[0],
                accounts[1],
                accounts[2],
                spec_u64_from_le_bytes(data.subrange(1, 9)),
            ) {
                Ok(p) => Ok(
                    accounts.update(0, accounts[0].with_data(p.0)).update(
                        1,
                        accounts[1].with_data(p.1),
                    ),
                ),
                Err(e) => Err(e),
            }
        }
    } else {
        Err(TokenError::InvalidInstructionData)
    }
}

/// Relates the account list before and after `process_instruction` to
/// the spec outcome under a given rent answer.
pub open spec fn process_outcome(
    pid: Seq<u8>,
    pre: Seq<SlotView>,
    data: Seq<u8>,
    rent_exempt: bool,
    post: Seq<SlotView>,
    r: Result<(), TokenError>,
) -> bool {
    match spec_process(pid, pre, data, rent_exempt) {
        Ok(s) => r is Ok && post == s,
        Err(e) => r == Err::<(), TokenError>(e) && post == pre,
    }
}

/// Runs one instruction against the supplied account slots.
///
/// `rent_exempt` is the host rent collaborator's answer for the slot the
/// two initialize opcodes construct; the caller obtains it from the host
/// and hands it in as a plain value (no other opcode consults it). The
/// whole outcome — which slots change, to which bytes, and which error
/// aborts the call — is pinned by `spec_process`.
pub fn process_instruction(
    program_id: &Pubkey,
    accounts: &mut Vec<AccountSlot>,
    instruction_data: &Vec<u8>,
    rent_exempt: bool,
    clock_slot: u64,
) -> (r: Result<(), TokenError>)
    requires
        program_id.wf(),
        forall|i: int| 0 <= i < old(accounts)@.len() ==> (#[trigger] old(accounts)@[i]).wf(),
    ensures
        final(accounts)@.len() == old(accounts)@.len(),
        forall|i: int| 0 <= i < final(accounts)@.len() ==> (#[trigger] final(accounts)@[i]).wf(),
        process_outcome(
            program_id@,
            slot_views(old(accounts)@),
            instruction_data@,
            rent_exempt,
            slot_views(final(accounts)@),
            r,
        ),
{
    let ghost pre = slot_views(accounts@);
    if instruction_data.len() == 0 {
        return Err(TokenError::InvalidInstructionData);
    }
    let opcode = instruction_data[0];
    match opcode {
        0 => {
            if accounts.len() < 3 {
                return Err(TokenError::NotEnoughAccountKeys);
            }
            let mut token_slot = accounts[0].dup();
            let owner_slot = accounts[1].dup();
            let result = initialize_token_account(
                program_id,
                &mut token_slot,
                &owner_slot,
                rent_exempt,
            );
            match result {
                Ok(()) => {
                    accounts.set(0, token_slot);
                    proof {
                        assert(slot_views(accounts@) =~= pre.update(0, accounts@[0]@));
                    }
                    Ok(())
                },
                Err(e) => Err(e),
            }
        },
        1 => {
            if accounts.len() < 3 {
                return Err(TokenError::NotEnoughAccountKeys);
            }
            let mut authority_slot = accounts[0].dup();
            let owner_slot = accounts[1].dup();
            let result = initialize_mint_authority(
                program_id,
                &mut authority_slot,
                &owner_slot,
                rent_exempt,
            );
            match result {
                Ok(()) => {
                    accounts.set(0, authority_slot);
                    proof {
                        assert(slot_views(accounts@) =~= pre.update(0, accounts@[0]@));
                    }
                    Ok(())
                },
                Err(e) => Err(e),
            }
        },
        2 => {
            if instruction_data.len() < 33 {
                return Err(TokenError::InvalidInstructionData);
            }
            if accounts.len() < 2 {
                return Err(TokenError::NotEnoughAccountKeys);
            }
            let key_bytes = slice_to_vec(slice_subrange(instruction_data.as_slice(), 1, 33));
            let new_signer = Pubkey::new(key_bytes);
            let mut authority_slot = accounts[0].dup();
            let owner_slot = accounts[1].dup();
            let result = update_mint_authority(
                program_id,
                &mut authority_slot,
                &owner_slot,
                &new_signer,
            );
            match result {
                Ok(()) => {
                    accounts.set(0, authority_slot);
                    proof {
                        assert(slot_views(accounts@) =~= pre.update(0, accounts@[0]@));
                    }
                    Ok(())
                },
                Err(e) => Err(e),
            }
        },
        3 => {
            if instruction_data.len() < 9 {
                return Err(TokenError::InvalidInstructionData);
            }
            if accounts.len() < 3 {
                return Err(TokenError::NotEnoughAccountKeys);
            }
            let amount = u64_from_le_bytes(slice_subrange(instruction_data.as_slice(), 1, 9));
            let authority_slot = accounts[0].dup();
            let owner_slot = accounts[1].dup();
            let mut token_slot = accounts[2].dup();
            let result = admin_mint(
                program_id,
                &authority_slot,
                &owner_slot,
                &mut token_slot,
                amount,
            );
            match result {
                Ok(()) => {
                    accounts.set(2, token_slot);
                    proof {
                        assert(slot_views(accounts@) =~= pre.update(2, accounts@[2]@));
                    }
                    Ok(())
                },
                Err(e) => Err(e),
            }
        },
        4 => {
            if instruction_data.len() < 73 {
                return Err(TokenError::InvalidInstructionData);
            }
            let score = u64_from_le_bytes(slice_subrange(instruction_data.as_slice(), 1, 9));
            if score > MAX_GAME_MINT {
                return Err(TokenError::Custom(NadrunnerError::ScoreExceedsMaximum));
            }
            if accounts.len() < 4 {
                return Err(TokenError::NotEnoughAccountKeys);
            }
            let signature = slice_subrange(instruction_data.as_slice(), 9, 73);
            let mut token_slot = accounts[0].dup();
            let player_slot = accounts[1].dup();
            let authority_slot = accounts[2].dup();
            let result = mint_game_score(
                program_id,
                &mut token_slot,
                &player_slot,
                &authority_slot,
                clock_slot,
                score,
                signature,
            );
            match result {
                Ok(()) => {
                    accounts.set(0, token_slot);
                    proof {
                        assert(slot_views(accounts@) =~= pre.update(0, accounts@[0]@));
                    }
                    Ok(())
                },
                Err(e) => Err(e),
            }
        },
        5 => {
            if instruction_data.len() < 9 {
                return Err(TokenError::InvalidInstructionData);
            }
            if accounts.len() < 3 {
                return Err(TokenError::NotEnoughAccountKeys);
            }
            let amount = u64_from_le_bytes(slice_subrange(instruction_data.as_slice(), 1, 9));
            let mut source_slot = accounts[0].dup();
            let mut destination_slot = accounts[1].dup();
            let owner_slot = accounts[2].dup();
            let result = transfer_tokens(
                program_id,
                &mut source_slot,
                &mut destination_slot,
                &owner_slot,
                amount,
            );
            match result {
                Ok(()) => {
                    accounts.set(0, source_slot);
                    accounts.set(1, destination_slot);
                    proof {
                        assert(slot_views(accounts@) =~= pre.update(0, accounts@[0]@).update(
                            1,
                            accounts@[1]@,
                        ));
                    }
                    Ok(())
                },
                Err(e) => Err(e),
            }
        },
        _ => Err(TokenError::InvalidInstructionData),
    }
}

} // verus!
