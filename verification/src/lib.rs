//! A custodial vault: one record per owner, at an address derived from the
//! owner's identity, credited by deposits and debited only by its owner.

pub mod address;
pub mod error;
pub mod identity;
pub mod instruction;
pub mod laws;
pub mod processor;
pub mod states;

use vstd::prelude::*;

use crate::error::ErrorKind;
use crate::identity::Identity;
use crate::processor::{
    instruction_accounts, instruction_action, Account, Action, Processor, Stage,
};

verus! {

/// The entry of the vault: decodes `instruction_data` and performs one step
/// of the operation it names on `accounts`. See
/// [`Processor::process_instruction`].
pub fn process_instruction(
    program_id: &Identity,
    accounts: &mut Vec<Account>,
    instruction_data: &[u8],
    stage: Stage,
) -> (r: Result<Action, ErrorKind>)
    ensures
        r == instruction_action(*program_id, old(accounts)@, instruction_data@, stage),
        instruction_accounts(
            *program_id,
            old(accounts)@,
            instruction_data@,
            stage,
            final(accounts)@,
        ),
{
    Processor::process_instruction(program_id, accounts, instruction_data, stage)
}

} // verus!
