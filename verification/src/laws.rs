use vstd::prelude::*;

use crate::address::{is_vault_of, vault_bump};
use crate::error::ErrorKind;
use crate::identity::Identity;
use crate::instruction::VaultIx;
use crate::processor::{
    admission, deposit_action, deposit_data, paid_out, withdraw_error, Account, Action, Stage,
    Transfer,
};
use crate::states::{bytes_record, lemma_record_round_trip, record_bytes, stored, VaultRecord};

verus! {

/// The record after the owner's instruction, or `None` where the
/// instruction is rejected for its amount.
pub open spec fn step(r: VaultRecord, ix: VaultIx) -> Option<VaultRecord> {
    match ix {
        VaultIx::Deposit { amount } => r.credit(amount),
        VaultIx::Withdraw { amount } => r.debit(amount),
    }
}

/// The record after the owner's instruction; a rejected one leaves it as it
/// was.
pub open spec fn next(r: VaultRecord, ix: VaultIx) -> VaultRecord {
    match step(r, ix) {
        Some(n) => n,
        None => r,
    }
}

/// The record after the owner's instructions, taken in order.
pub open spec fn replay(r: VaultRecord, ixs: Seq<VaultIx>) -> VaultRecord
    decreases ixs.len(),
{
    if ixs.len() == 0 {
        r
    } else {
        replay(next(r, ixs[0]), ixs.drop_first())
    }
}

/// The sum of the deposits among `ixs` that were accepted.
pub open spec fn deposited(r: VaultRecord, ixs: Seq<VaultIx>) -> int
    decreases ixs.len(),
{
    if ixs.len() == 0 {
        0
    } else {
        let first: int = if ixs[0] is Deposit && step(r, ixs[0]) is Some {
            ixs[0].amount() as int
        } else {
            0
        };
        first + deposited(next(r, ixs[0]), ixs.drop_first())
    }
}

/// The sum of the withdrawals among `ixs` that were accepted.
pub open spec fn withdrawn(r: VaultRecord, ixs: Seq<VaultIx>) -> int
    decreases ixs.len(),
{
    if ixs.len() == 0 {
        0
    } else {
        let first: int = if ixs[0] is Withdraw && step(r, ixs[0]) is Some {
            ixs[0].amount() as int
        } else {
            0
        };
        first + withdrawn(next(r, ixs[0]), ixs.drop_first())
    }
}

/// After any sequence of the owner's instructions the balance is what the
/// record started with, plus the accepted deposits, minus the accepted
/// withdrawals. It never leaves the 64-bit range, and the owner and the bump
/// stay what they were.
pub proof fn lemma_balance_is_net_of_accepted(r: VaultRecord, ixs: Seq<VaultIx>)
    ensures
        replay(r, ixs).balance == r.balance + deposited(r, ixs) - withdrawn(r, ixs),
        0 <= r.balance + deposited(r, ixs) - withdrawn(r, ixs) <= u64::MAX,
        replay(r, ixs).owner == r.owner,
        replay(r, ixs).bump == r.bump,
    decreases ixs.len(),
{
    if ixs.len() > 0 {
        lemma_balance_is_net_of_accepted(next(r, ixs[0]), ixs.drop_first());
    }
}

/// The last step of an accepted deposit leaves in the vault's data the
/// record it found with `amount` added to the balance.
pub proof fn lemma_deposit_credits(program: Identity, accounts: Seq<Account>, amount: u64)
    requires
        deposit_action(program, accounts, amount, Stage::Funded) is Ok,
    ensures
        bytes_record(accounts[1].data@).credit(amount) is Some,
        bytes_record(deposit_data(program, accounts, amount, Stage::Funded)) == bytes_record(
            accounts[1].data@,
        ).credit(amount).unwrap(),
        bytes_record(deposit_data(program, accounts, amount, Stage::Funded)) == step(
            bytes_record(accounts[1].data@),
            VaultIx::Deposit { amount },
        ).unwrap(),
{
    lemma_record_round_trip(bytes_record(accounts[1].data@).credit(amount).unwrap());
}

/// An accepted withdrawal leaves in the vault's data the record it found
/// with `amount` taken off the balance, and the owner it found.
pub proof fn lemma_withdraw_debits(
    program: Identity,
    accounts: Seq<Account>,
    amount: u64,
    after: Seq<Account>,
)
    requires
        withdraw_error(program, accounts, amount) is None,
        paid_out(accounts, after, amount),
    ensures
        bytes_record(accounts[1].data@).debit(amount) is Some,
        bytes_record(after[1].data@) == step(
            bytes_record(accounts[1].data@),
            VaultIx::Withdraw { amount },
        ).unwrap(),
        bytes_record(after[1].data@).balance == bytes_record(accounts[1].data@).balance - amount,
        bytes_record(after[1].data@).owner == bytes_record(accounts[1].data@).owner,
        bytes_record(after[1].data@).bump == bytes_record(accounts[1].data@).bump,
        after[1].lamports - bytes_record(after[1].data@).balance == accounts[1].lamports
            - bytes_record(accounts[1].data@).balance,
        after[0].lamports + after[1].lamports == accounts[0].lamports + accounts[1].lamports,
{
    lemma_record_round_trip(bytes_record(accounts[1].data@).debit(amount).unwrap());
}

/// Whoever withdraws has signed, presents the vault derived for them, and is
/// the owner written in its record; and the record covers the amount.
pub proof fn lemma_withdrawal_is_by_owner(program: Identity, accounts: Seq<Account>, amount: u64)
    requires
        withdraw_error(program, accounts, amount) is None,
    ensures
        accounts.len() >= 2,
        accounts[0].is_signer,
        is_vault_of(accounts[1].key@, accounts[0].key@, program@),
        accounts[1].data@.len() == 41,
        bytes_record(accounts[1].data@).owner == accounts[0].key@,
        amount <= bytes_record(accounts[1].data@).balance,
{
}

/// A user who is not the owner written in the record never withdraws,
/// whatever the amount, zero included. Where the accounts are admitted, the
/// reason given is `IllegalOwner`.
pub proof fn lemma_only_owner_withdraws(program: Identity, accounts: Seq<Account>, amount: u64)
    requires
        accounts.len() >= 2,
        accounts[1].data@.len() == 41,
        bytes_record(accounts[1].data@).owner != accounts[0].key@,
    ensures
        withdraw_error(program, accounts, amount) is Some,
        admission(program, accounts, 2) is None ==> withdraw_error(program, accounts, amount)
            == Some(ErrorKind::IllegalOwner),
{
}

/// The owner can take out exactly the balance, which leaves a balance of
/// zero, and is refused one more than the balance with `InsufficientFunds`.
/// This is said of a vault account that holds at least the value its record
/// credits, and of a user whose value has room for it.
pub proof fn lemma_withdraw_boundary(program: Identity, accounts: Seq<Account>, after: Seq<Account>)
    requires
        admission(program, accounts, 2) is None,
        accounts[1].data@.len() == 41,
        bytes_record(accounts[1].data@).owner == accounts[0].key@,
        accounts[1].lamports >= bytes_record(accounts[1].data@).balance,
        accounts[0].lamports + bytes_record(accounts[1].data@).balance <= u64::MAX,
        paid_out(accounts, after, bytes_record(accounts[1].data@).balance),
    ensures
        withdraw_error(program, accounts, bytes_record(accounts[1].data@).balance) is None,
        bytes_record(after[1].data@).balance == 0,
        bytes_record(accounts[1].data@).balance < u64::MAX ==> withdraw_error(
            program,
            accounts,
            (bytes_record(accounts[1].data@).balance + 1) as u64,
        ) == Some(ErrorKind::InsufficientFunds),
{
    let balance = bytes_record(accounts[1].data@).balance;
    lemma_withdraw_debits(program, accounts, balance, after);
}

/// A record is only ever asked for at the address derived for the user who
/// deposits, with the bump of that derivation as the proof of authority.
/// Once the host has created it, `created` being the accounts as they are
/// then, the record written into it names that user as owner and holds
/// nothing.
pub proof fn lemma_record_is_born_at_its_address(
    program: Identity,
    accounts: Seq<Account>,
    amount: u64,
    created: Seq<Account>,
)
    requires
        deposit_action(program, accounts, amount, Stage::Start) is Ok,
        accounts[1].data@.len() == 0,
        created.len() == accounts.len(),
        created[0].key == accounts[0].key,
        created[0].is_signer == accounts[0].is_signer,
        created[1].key == accounts[1].key,
        created[1].data@.len() == 41,
    ensures
        deposit_action(program, accounts, amount, Stage::Start) matches Ok(Action::Allocate(a))
            && a.space == 41 && a.program == program && a.authority.owner == accounts[0].key
            && a.address == accounts[1].key && is_vault_of(
            a.address@,
            a.authority.owner@,
            program@,
        ) && a.authority.bump == vault_bump(a.authority.owner@, program@),
        deposit_action(program, created, amount, Stage::Allocated) is Ok,
        bytes_record(deposit_data(program, created, amount, Stage::Allocated)) == (VaultRecord {
            owner: accounts[0].key@,
            balance: 0,
            bump: vault_bump(accounts[0].key@, program@),
        }),
{
    let fresh = VaultRecord {
        owner: accounts[0].key@,
        balance: 0,
        bump: vault_bump(accounts[0].key@, program@),
    };
    lemma_record_round_trip(fresh);
    let data = created[1].data@;
    assert(data.subrange(41, data.len() as int) =~= Seq::<u8>::empty());
    assert(stored(fresh, data) =~= record_bytes(fresh));
}

/// An owner has one vault: two admitted deposits of the same user name the
/// same vault account. On a vault that holds a record already, a deposit
/// asks for the transfer and for no new record.
pub proof fn lemma_one_vault_per_owner(
    program: Identity,
    first: Seq<Account>,
    second: Seq<Account>,
    amount: u64,
)
    requires
        admission(program, first, 3) is None,
        admission(program, second, 3) is None,
        first[0].key@ == second[0].key@,
    ensures
        first[1].key@ == second[1].key@,
        first[1].key == second[1].key,
        second[1].data@.len() > 0 ==> deposit_action(program, second, amount, Stage::Start) == Ok::<
            Action,
            ErrorKind,
        >(Action::Transfer(Transfer { from: second[0].key, to: second[1].key, amount })),
{
    assert(first[1].key.bytes@ =~= second[1].key.bytes@);
    assert(first[1].key.bytes == second[1].key.bytes);
}

/// Two deposits in a row add up in the one record.
pub proof fn lemma_deposits_accumulate(r: VaultRecord, a: u64, b: u64)
    requires
        r.balance + a + b <= u64::MAX,
    ensures
        r.credit(a) is Some,
        r.credit(a).unwrap().credit(b) is Some,
        r.credit(a).unwrap().credit(b).unwrap() == (VaultRecord {
            balance: (r.balance + a + b) as u64,
            ..r
        }),
{
}

} // verus!
