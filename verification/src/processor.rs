use vstd::prelude::*;

use crate::address::{derive_address, is_vault_of, vault_bump};
use crate::error::ErrorKind;
use crate::identity::Identity;
use crate::instruction::{ix_of, VaultIx};
use crate::states::{bytes_record, record_bytes, stored, VaultAccount, VaultRecord};

verus! {

/// One storage record as the host hands it in: its address, whether its
/// holder signed, the value it holds and its data.
#[derive(Clone, Debug, PartialEq, Eq)]
pub struct Account {
    pub key: Identity,
    pub is_signer: bool,
    pub lamports: u64,
    pub data: Vec<u8>,
}

/// The right to create the record at a derived address: the owner whose
/// bytes follow the seed tag, and the bump that completes the seeds. Whoever
/// honours it derives the address again and compares.
#[derive(Clone, Copy, Debug, PartialEq, Eq)]
pub struct AuthorityProof {
    pub owner: Identity,
    pub bump: u8,
}

/// A request to the host: create the record at `address` with `space` bytes
/// of data, funded by the user with the upkeep reserve for that size, and
/// owned by `program`.
#[derive(Clone, Copy, Debug, PartialEq, Eq)]
pub struct Allocation {
    pub address: Identity,
    pub space: u64,
    pub program: Identity,
    pub authority: AuthorityProof,
}

/// A request to the host: move `amount` of value from `from` to `to`.
#[derive(Clone, Copy, Debug, PartialEq, Eq)]
pub struct Transfer {
    pub from: Identity,
    pub to: Identity,
    pub amount: u64,
}

/// How far the host has come with the invocation it is running.
#[derive(Clone, Copy, Debug, PartialEq, Eq, Structural)]
pub enum Stage {
    /// Nothing was done yet.
    Start,
    /// The host has created the record that was asked for.
    Allocated,
    /// The host has moved the deposit into the vault account.
    Funded,
}

/// What the host does next. After `Allocate` it comes back at
/// `Stage::Allocated`, after `Transfer` at `Stage::Funded`; a failure of its
/// own ends the invocation with that failure.
#[derive(Clone, Copy, Debug, PartialEq, Eq)]
pub enum Action {
    Allocate(Allocation),
    Transfer(Transfer),
    Done,
}

/// The first reason to turn the accounts away, if there is one: too few of
/// them, a user who did not sign, or a vault account that is not at the
/// address derived for the user.
pub open spec fn admission(program: Identity, accounts: Seq<Account>, needed: int) -> Option<
    ErrorKind,
> {
    if accounts.len() < needed {
        Some(ErrorKind::MissingAccount)
    } else if !accounts[0].is_signer {
        Some(ErrorKind::Unauthorized)
    } else if !is_vault_of(accounts[1].key@, accounts[0].key@, program@) {
        Some(ErrorKind::AddressMismatch)
    } else {
        None
    }
}

/// The record that a fresh vault starts with.
pub open spec fn fresh_record(program: Identity, owner: Identity) -> VaultRecord {
    VaultRecord { owner: owner@, balance: 0, bump: vault_bump(owner@, program@) }
}

/// What one step of a deposit answers.
pub open spec fn deposit_action(
    program: Identity,
    accounts: Seq<Account>,
    amount: u64,
    stage: Stage,
) -> Result<Action, ErrorKind> {
    match admission(program, accounts, 3) {
        Some(e) => Err(e),
        None => {
            let user = accounts[0];
            let vault = accounts[1];
            let transfer = Action::Transfer(Transfer { from: user.key, to: vault.key, amount });
            match stage {
                Stage::Start => if vault.data@.len() == 0 {
                    Ok(
                        Action::Allocate(
                            Allocation {
                                address: vault.key,
                                space: 41,
                                program,
                                authority: AuthorityProof {
                                    owner: user.key,
                                    bump: vault_bump(user.key@, program@),
                                },
                            },
                        ),
                    )
                } else {
                    Ok(transfer)
                },
                Stage::Allocated => if vault.data@.len() < 41 {
                    Err(ErrorKind::MalformedRecord)
                } else {
                    Ok(transfer)
                },
                Stage::Funded => if vault.data@.len() != 41 {
                    Err(ErrorKind::MalformedRecord)
                } else if bytes_record(vault.data@).credit(amount) is None {
                    Err(ErrorKind::Overflow)
                } else {
                    Ok(Action::Done)
                },
            }
        },
    }
}

/// The vault account's data after an accepted step of a deposit.
pub open spec fn deposit_data(program: Identity, accounts: Seq<Account>, amount: u64, stage: Stage)
    -> Seq<u8> {
    let vault = accounts[1];
    match stage {
        Stage::Start => vault.data@,
        Stage::Allocated => stored(fresh_record(program, accounts[0].key), vault.data@),
        Stage::Funded => record_bytes(bytes_record(vault.data@).credit(amount).unwrap()),
    }
}

/// `after` is `before` with `data` as the vault account's data, and nothing
/// else changed.
pub open spec fn vault_rewritten(before: Seq<Account>, after: Seq<Account>, data: Seq<u8>) -> bool {
    &&& after.len() == before.len()
    &&& forall|i: int| 0 <= i < before.len() && i != 1 ==> after[i] == before[i]
    &&& after[1].key == before[1].key
    &&& after[1].is_signer == before[1].is_signer
    &&& after[1].lamports == before[1].lamports
    &&& after[1].data@ == data
}

/// What one step of a deposit leaves in the accounts: a rejected step and
/// the first step leave them as they were, the others rewrite the vault's
/// data.
pub open spec fn deposit_accounts(
    program: Identity,
    before: Seq<Account>,
    amount: u64,
    stage: Stage,
    after: Seq<Account>,
) -> bool {
    if deposit_action(program, before, amount, stage) is Err || stage == Stage::Start {
        after == before
    } else {
        vault_rewritten(before, after, deposit_data(program, before, amount, stage))
    }
}

/// The reason to reject a withdrawal, if there is one.
pub open spec fn withdraw_error(program: Identity, accounts: Seq<Account>, amount: u64) -> Option<
    ErrorKind,
> {
    match admission(program, accounts, 2) {
        Some(e) => Some(e),
        None => {
            let user = accounts[0];
            let vault = accounts[1];
            if vault.data@.len() != 41 {
                Some(ErrorKind::MalformedRecord)
            } else if bytes_record(vault.data@).owner != user.key@ {
                Some(ErrorKind::IllegalOwner)
            } else if bytes_record(vault.data@).debit(amount) is None {
                Some(ErrorKind::InsufficientFunds)
            } else if vault.lamports < amount {
                Some(ErrorKind::InsufficientFunds)
            } else if user.lamports + amount > u64::MAX {
                Some(ErrorKind::Overflow)
            } else {
                None
            }
        },
    }
}

/// `after` is `before` with `amount` of value moved from the vault account
/// to the user and taken off the record's balance, and nothing else changed.
pub open spec fn paid_out(before: Seq<Account>, after: Seq<Account>, amount: u64) -> bool {
    &&& after.len() == before.len()
    &&& forall|i: int| 2 <= i < before.len() ==> after[i] == before[i]
    &&& after[0].key == before[0].key
    &&& after[0].is_signer == before[0].is_signer
    &&& after[0].data == before[0].data
    &&& after[0].lamports == before[0].lamports + amount
    &&& after[1].key == before[1].key
    &&& after[1].is_signer == before[1].is_signer
    &&& after[1].lamports == before[1].lamports - amount
    &&& after[1].data@ == record_bytes(bytes_record(before[1].data@).debit(amount).unwrap())
}

/// What a withdrawal leaves in the accounts.
pub open spec fn withdraw_accounts(
    program: Identity,
    before: Seq<Account>,
    amount: u64,
    after: Seq<Account>,
) -> bool {
    if withdraw_error(program, before, amount) is Some {
        after == before
    } else {
        paid_out(before, after, amount)
    }
}

/// What one call of the entry answers: a payload that is no instruction is
/// rejected, a deposit takes the step that `stage` names, and a withdrawal
/// is done in one call, whatever the stage.
pub open spec fn instruction_action(
    program: Identity,
    accounts: Seq<Account>,
    data: Seq<u8>,
    stage: Stage,
) -> Result<Action, ErrorKind> {
    match ix_of(data) {
        None => Err(ErrorKind::InvalidInstruction),
        Some(VaultIx::Deposit { amount }) => deposit_action(program, accounts, amount, stage),
        Some(VaultIx::Withdraw { amount }) => match withdraw_error(program, accounts, amount) {
            Some(e) => Err(e),
            None => Ok(Action::Done),
        },
    }
}

/// What one call of the entry leaves in the accounts.
pub open spec fn instruction_accounts(
    program: Identity,
    before: Seq<Account>,
    data: Seq<u8>,
    stage: Stage,
    after: Seq<Account>,
) -> bool {
    match ix_of(data) {
        None => after == before,
        Some(VaultIx::Deposit { amount }) => deposit_accounts(program, before, amount, stage, after),
        Some(VaultIx::Withdraw { amount }) => withdraw_accounts(program, before, amount, after),
    }
}

/// The decisions of the vault. The host does the outside work between two
/// calls: it creates records and moves value when an `Action` asks for it.
pub struct Processor;

impl Processor {
    /// Decodes `instruction_data` and routes to the operation it names.
    pub fn process_instruction(
        program_id: &Identity,
        accounts: &mut Vec<Account>,
        instruction_data: &[u8],
        stage: Stage,
    ) -> (r: Result<Action, ErrorKind>)
        ensures
            r == instruction_action(*program_id, old(accounts)@, instruction_data@, stage),
            instruction_accounts(
                *program_id,
                old(accounts)@,
                instruction_data@,
                stage,
                final(accounts)@,
            ),
    {
        match VaultIx::decode(instruction_data) {
            Err(e) => Err(e),
            Ok(VaultIx::Deposit { amount }) => Self::process_deposit(
                program_id,
                accounts,
                amount,
                stage,
            ),
            Ok(VaultIx::Withdraw { amount }) => Self::process_withdraw(
                program_id,
                accounts,
                amount,
            ),
        }
    }

    /// Checks that enough accounts came, that the user signed, and that the
    /// vault account is at the address derived for the user. Returns the
    /// bump of that address.
    fn check_accounts(program_id: &Identity, accounts: &Vec<Account>, needed: usize) -> (r:
        Result<u8, ErrorKind>)
        requires
            needed >= 2,
        ensures
            r == match admission(*program_id, accounts@, needed as int) {
                Some(e) => Err::<u8, ErrorKind>(e),
                None => Ok(vault_bump(accounts@[0].key@, program_id@)),
            },
    {
        if accounts.len() < needed {
            return Err(ErrorKind::MissingAccount);
        }
        if !accounts[0].is_signer {
            return Err(ErrorKind::Unauthorized);
        }
        match derive_address(&accounts[0].key, program_id) {
            Some((address, bump)) => {
                if address.same(&accounts[1].key) {
                    Ok(bump)
                } else {
                    Err(ErrorKind::AddressMismatch)
                }
            },
            None => Err(ErrorKind::AddressMismatch),
        }
    }

    /// One step of a deposit by the user, `accounts[0]`, into the vault,
    /// `accounts[1]`; `accounts[2]` is the storage allocator. At `Start` it
    /// asks for the record to be created where the vault account holds no
    /// data, and for the transfer otherwise. At `Allocated` it writes the
    /// fresh record and asks for the transfer. At `Funded` it adds `amount`
    /// to the record's balance, unless that overflows.
    pub fn process_deposit(
        program_id: &Identity,
        accounts: &mut Vec<Account>,
        amount: u64,
        stage: Stage,
    ) -> (r: Result<Action, ErrorKind>)
        ensures
            r == deposit_action(*program_id, old(accounts)@, amount, stage),
            deposit_accounts(*program_id, old(accounts)@, amount, stage, final(accounts)@),
    {
        let bump: u8 = match Self::check_accounts(program_id, accounts, 3) {
            Ok(bump) => bump,
            Err(e) => {
                return Err(e);
            },
        };
        let user_key = accounts[0].key;
        let vault_key = accounts[1].key;
        let transfer = Action::Transfer(Transfer { from: user_key, to: vault_key, amount });
        match stage {
            Stage::Start => {
                if accounts[1].data.len() == 0 {
                    Ok(
                        Action::Allocate(
                            Allocation {
                                address: vault_key,
                                space: 41,
                                program: *program_id,
                                authority: AuthorityProof { owner: user_key, bump },
                            },
                        ),
                    )
                } else {
                    Ok(transfer)
                }
            },
            Stage::Allocated => {
                if accounts[1].data.len() < VaultAccount::LEN {
                    return Err(ErrorKind::MalformedRecord);
                }
                let record = VaultAccount { owner: user_key, balance: 0, bump };
                let _ = record.store(&mut accounts[1].data);
                Ok(transfer)
            },
            Stage::Funded => {
                let record = match VaultAccount::decode(accounts[1].data.as_slice()) {
                    Ok(record) => record,
                    Err(_) => {
                        return Err(ErrorKind::MalformedRecord);
                    },
                };
                let credited = match record.credit(amount) {
                    Ok(credited) => credited,
                    Err(e) => {
                        return Err(e);
                    },
                };
                accounts[1].data = credited.encode();
                Ok(Action::Done)
            },
        }
    }

    /// A withdrawal by the user, `accounts[0]`, from the vault,
    /// `accounts[1]`. Only the owner written in the record is served, and
    /// only up to the record's balance. The value moves from the vault
    /// account to the user in the same step in which the balance goes down.
    pub fn process_withdraw(program_id: &Identity, accounts: &mut Vec<Account>, amount: u64) -> (r:
        Result<Action, ErrorKind>)
        ensures
            r == match withdraw_error(*program_id, old(accounts)@, amount) {
                Some(e) => Err::<Action, ErrorKind>(e),
                None => Ok(Action::Done),
            },
            withdraw_accounts(*program_id, old(accounts)@, amount, final(accounts)@),
    {
        match Self::check_accounts(program_id, accounts, 2) {
            Ok(_) => {},
            Err(e) => {
                return Err(e);
            },
        }
        let record = match VaultAccount::decode(accounts[1].data.as_slice()) {
            Ok(record) => record,
            Err(_) => {
                return Err(ErrorKind::MalformedRecord);
            },
        };
        if !record.owner.same(&accounts[0].key) {
            return Err(ErrorKind::IllegalOwner);
        }
        let debited = match record.debit(amount) {
            Ok(debited) => debited,
            Err(e) => {
                return Err(e);
            },
        };
        let vault_value: u64 = match accounts[1].lamports.checked_sub(amount) {
            Some(value) => value,
            None => {
                return Err(ErrorKind::InsufficientFunds);
            },
        };
        let user_value: u64 = match accounts[0].lamports.checked_add(amount) {
            Some(value) => value,
            None => {
                return Err(ErrorKind::Overflow);
            },
        };
        accounts[1].lamports = vault_value;
        accounts[0].lamports = user_value;
        accounts[1].data = debited.encode();
        Ok(Action::Done)
    }
}

} // verus!
