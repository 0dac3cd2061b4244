use solana_program::pubkey::Pubkey;
use vault_litesvm::address::derive_address;
use vault_litesvm::error::ErrorKind;
use vault_litesvm::identity::Identity;
use vault_litesvm::instruction::VaultIx;
use vault_litesvm::process_instruction;
use vault_litesvm::processor::{Account, Action, Allocation, AuthorityProof, Processor, Stage, Transfer};
use vault_litesvm::states::VaultAccount;

/// What the host charges for a record of 41 bytes.
const RESERVE: u64 = 1_176_240;

#[derive(Debug, PartialEq, Eq)]
enum Rejected {
    Vault(ErrorKind),
    Host,
}

fn identity(key: &Pubkey) -> Identity {
    Identity::new(key.to_bytes())
}

fn vault_pda(program_id: &Pubkey, user: &Pubkey) -> Pubkey {
    Pubkey::find_program_address(&[VaultAccount::SEED.as_bytes(), user.as_ref()], program_id).0
}

fn user_account(key: &Pubkey, lamports: u64, is_signer: bool) -> Account {
    Account { key: identity(key), is_signer, lamports, data: vec![] }
}

fn system_program() -> Account {
    Account {
        key: identity(&Pubkey::from_str_const("11111111111111111111111111111111")),
        is_signer: false,
        lamports: 1,
        data: vec![],
    }
}

/// Runs one invocation as the host does: it performs what the vault asks
/// for, and keeps the accounts only where the whole invocation succeeds.
fn send(program: &Identity, accounts: &mut Vec<Account>, data: &[u8]) -> Result<(), Rejected> {
    let mut work = accounts.clone();
    let mut stage = Stage::Start;
    loop {
        match process_instruction(program, &mut work, data, stage).map_err(Rejected::Vault)? {
            Action::Allocate(request) => {
                if work[0].lamports < RESERVE || !work[1].data.is_empty() {
                    return Err(Rejected::Host);
                }
                work[0].lamports -= RESERVE;
                work[1].lamports += RESERVE;
                work[1].data = vec![0; request.space as usize];
                stage = Stage::Allocated;
            }
            Action::Transfer(request) => {
                if work[0].lamports < request.amount {
                    return Err(Rejected::Host);
                }
                work[0].lamports -= request.amount;
                work[1].lamports += request.amount;
                stage = Stage::Funded;
            }
            Action::Done => {
                *accounts = work;
                return Ok(());
            }
        }
    }
}

fn deposit(program: &Identity, accounts: &mut Vec<Account>, amount: u64) -> Result<(), Rejected> {
    send(program, accounts, &VaultIx::Deposit { amount }.encode())
}

fn withdraw(program: &Identity, accounts: &mut Vec<Account>, amount: u64) -> Result<(), Rejected> {
    send(program, accounts, &VaultIx::Withdraw { amount }.encode())
}

#[test]
fn test_deposit_and_withdraw() {
    let program_id = Pubkey::new_unique();
    let user_pubkey = Pubkey::new_unique();
    let vault_pda = vault_pda(&program_id, &user_pubkey);
    let program = identity(&program_id);

    let mut accounts = vec![
        user_account(&user_pubkey, 10_000_000_000, true),
        user_account(&vault_pda, 0, false),
        system_program(),
    ];

    let deposit_amount = 1_000_000_000;
    let result = deposit(&program, &mut accounts, deposit_amount);
    assert!(result.is_ok(), "Deposit should succeed");
    assert!(!accounts[1].data.is_empty(), "Vault account should exist");

    let vault_state = VaultAccount::decode(&accounts[1].data).unwrap();
    assert_eq!(vault_state.owner, identity(&user_pubkey), "Vault owner should be user");
    assert_eq!(vault_state.balance, deposit_amount, "Vault balance should equal deposit amount");

    let second_deposit = 500_000_000;
    let result = deposit(&program, &mut accounts, second_deposit);
    assert!(result.is_ok(), "Second deposit should succeed");

    let vault_state = VaultAccount::decode(&accounts[1].data).unwrap();
    let expected_balance = deposit_amount + second_deposit;
    assert_eq!(vault_state.balance, expected_balance, "Vault balance should be 1.5 SOL");
    assert_eq!(vault_state.balance, 1_500_000_000);

    let withdraw_amount = 500_000_000;
    let user_balance_before = accounts[0].lamports;
    let mut pair = vec![accounts[0].clone(), accounts[1].clone()];
    let result = withdraw(&program, &mut pair, withdraw_amount);
    assert!(result.is_ok(), "Withdraw should succeed");

    let vault_state = VaultAccount::decode(&pair[1].data).unwrap();
    let expected_balance = deposit_amount + second_deposit - withdraw_amount;
    assert_eq!(vault_state.balance, expected_balance, "Vault balance should be 1 SOL");
    assert_eq!(vault_state.balance, 1_000_000_000);
    assert_eq!(pair[0].lamports, user_balance_before + withdraw_amount);

    let excessive_withdraw = 2_000_000_000;
    let before = pair.clone();
    let result = withdraw(&program, &mut pair, excessive_withdraw);
    assert!(result.is_err(), "Excessive withdraw should fail");
    assert_eq!(result, Err(Rejected::Vault(ErrorKind::InsufficientFunds)));
    assert_eq!(pair, before);
}

#[test]
fn test_unauthorized_withdrawal() {
    let program_id = Pubkey::new_unique();
    let program = identity(&program_id);
    let user1_pubkey = Pubkey::new_unique();
    let user2_pubkey = Pubkey::new_unique();
    let vault_pda_user1 = vault_pda(&program_id, &user1_pubkey);

    let mut accounts = vec![
        user_account(&user1_pubkey, 10_000_000_000, true),
        user_account(&vault_pda_user1, 0, false),
        system_program(),
    ];
    let result = deposit(&program, &mut accounts, 1_000_000_000);
    assert!(result.is_ok(), "User1 deposit should succeed");

    let mut attempt = vec![user_account(&user2_pubkey, 10_000_000_000, true), accounts[1].clone()];
    let before = attempt.clone();
    let result = withdraw(&program, &mut attempt, 500_000_000);
    assert!(result.is_err(), "User2 should not be able to withdraw from User1's vault");
    assert_eq!(result, Err(Rejected::Vault(ErrorKind::AddressMismatch)));
    assert_eq!(attempt, before);
}

#[test]
fn test_multiple_user_vaults() {
    let program_id = Pubkey::new_unique();
    let program = identity(&program_id);
    let users: Vec<Pubkey> = (0..3).map(|_| Pubkey::new_unique()).collect();
    let mut vaults: Vec<Pubkey> = Vec::new();

    for (i, user_pubkey) in users.iter().enumerate() {
        let vault_pda = vault_pda(&program_id, user_pubkey);
        let deposit_amount = (i as u64 + 1) * 500_000_000;
        let mut accounts = vec![
            user_account(user_pubkey, 10_000_000_000, true),
            user_account(&vault_pda, 0, false),
            system_program(),
        ];
        let result = deposit(&program, &mut accounts, deposit_amount);
        assert!(result.is_ok(), "User {} deposit should succeed", i + 1);

        let vault_state = VaultAccount::decode(&accounts[1].data).unwrap();
        assert_eq!(vault_state.balance, deposit_amount);
        assert_eq!(vault_state.owner, identity(user_pubkey));
        assert!(!vaults.contains(&vault_pda));
        vaults.push(vault_pda);
    }
}

#[test]
fn derived_address_is_the_program_address() {
    let program_id = Pubkey::new_from_array([7; 32]);
    let user = Pubkey::new_from_array([9; 32]);
    let (expected, bump) =
        Pubkey::find_program_address(&[b"vault_account", user.as_ref()], &program_id);
    let found = derive_address(&identity(&user), &identity(&program_id));
    assert_eq!(found, Some((identity(&expected), bump)));
    assert_ne!(found.unwrap().0, identity(&user));
    assert_ne!(found.unwrap().0, identity(&program_id));
}

#[test]
fn derivation_repeats() {
    let program = Identity::new([3; 32]);
    for seed in 0..8u8 {
        let owner = Identity::new([seed; 32]);
        let first = derive_address(&owner, &program);
        let second = derive_address(&owner, &program);
        assert!(first.is_some());
        assert_eq!(first, second);
    }
    assert_ne!(
        derive_address(&Identity::new([1; 32]), &program),
        derive_address(&Identity::new([2; 32]), &program)
    );
}

#[test]
fn first_deposit_asks_for_the_record_then_the_transfer() {
    let program_id = Pubkey::new_from_array([7; 32]);
    let user = Pubkey::new_from_array([9; 32]);
    let (pda, bump) = Pubkey::find_program_address(&[b"vault_account", user.as_ref()], &program_id);
    let program = identity(&program_id);
    let mut accounts =
        vec![user_account(&user, 5_000, true), user_account(&pda, 0, false), system_program()];
    let before = accounts.clone();

    let action = Processor::process_deposit(&program, &mut accounts, 700, Stage::Start);
    assert_eq!(
        action,
        Ok(Action::Allocate(Allocation {
            address: identity(&pda),
            space: 41,
            program,
            authority: AuthorityProof { owner: identity(&user), bump },
        }))
    );
    assert_eq!(accounts, before);

    accounts[1].data = vec![0; 41];
    let transfer =
        Action::Transfer(Transfer { from: identity(&user), to: identity(&pda), amount: 700 });
    let action = Processor::process_deposit(&program, &mut accounts, 700, Stage::Allocated);
    assert_eq!(action, Ok(transfer));
    let record = VaultAccount::decode(&accounts[1].data).unwrap();
    assert_eq!(record, VaultAccount { owner: identity(&user), balance: 0, bump });

    let action = Processor::process_deposit(&program, &mut accounts, 700, Stage::Funded);
    assert_eq!(action, Ok(Action::Done));
    let record = VaultAccount::decode(&accounts[1].data).unwrap();
    assert_eq!(record, VaultAccount { owner: identity(&user), balance: 700, bump });

    let action = Processor::process_deposit(&program, &mut accounts, 5, Stage::Start);
    assert_eq!(action, Ok(transfer_of(&user, &pda, 5)));
}

fn transfer_of(from: &Pubkey, to: &Pubkey, amount: u64) -> Action {
    Action::Transfer(Transfer { from: identity(from), to: identity(to), amount })
}

#[test]
fn missing_accounts_are_rejected() {
    let program_id = Pubkey::new_from_array([7; 32]);
    let user = Pubkey::new_from_array([9; 32]);
    let pda = vault_pda(&program_id, &user);
    let program = identity(&program_id);

    let mut two = vec![user_account(&user, 5_000, true), user_account(&pda, 0, false)];
    assert_eq!(deposit(&program, &mut two, 1), Err(Rejected::Vault(ErrorKind::MissingAccount)));
    let mut one = vec![user_account(&user, 5_000, true)];
    assert_eq!(withdraw(&program, &mut one, 1), Err(Rejected::Vault(ErrorKind::MissingAccount)));
    let mut none: Vec<Account> = vec![];
    assert_eq!(withdraw(&program, &mut none, 1), Err(Rejected::Vault(ErrorKind::MissingAccount)));
}

#[test]
fn unsigned_user_is_unauthorized() {
    let program_id = Pubkey::new_from_array([7; 32]);
    let user = Pubkey::new_from_array([9; 32]);
    let pda = vault_pda(&program_id, &user);
    let program = identity(&program_id);
    let mut accounts =
        vec![user_account(&user, 5_000, false), user_account(&pda, 0, false), system_program()];
    assert_eq!(deposit(&program, &mut accounts, 1), Err(Rejected::Vault(ErrorKind::Unauthorized)));
    assert_eq!(withdraw(&program, &mut accounts, 1), Err(Rejected::Vault(ErrorKind::Unauthorized)));
}

#[test]
fn foreign_record_is_an_address_mismatch() {
    let program_id = Pubkey::new_from_array([7; 32]);
    let user = Pubkey::new_from_array([9; 32]);
    let other = Pubkey::new_from_array([10; 32]);
    let program = identity(&program_id);
    let mut accounts = vec![
        user_account(&user, 5_000, true),
        user_account(&vault_pda(&program_id, &other), 0, false),
        system_program(),
    ];
    assert_eq!(
        deposit(&program, &mut accounts, 1),
        Err(Rejected::Vault(ErrorKind::AddressMismatch))
    );
    assert_eq!(
        withdraw(&program, &mut accounts, 1),
        Err(Rejected::Vault(ErrorKind::AddressMismatch))
    );
}

#[test]
fn stranger_is_an_illegal_owner_for_any_amount() {
    let program_id = Pubkey::new_from_array([7; 32]);
    let user = Pubkey::new_from_array([9; 32]);
    let owner = Identity::new([10; 32]);
    let pda = vault_pda(&program_id, &user);
    let program = identity(&program_id);
    let record = VaultAccount { owner, balance: 900, bump: 255 };
    let vault = Account { key: identity(&pda), is_signer: false, lamports: 5_000, data: record.encode() };
    for amount in [0u64, 1, 900, 901, u64::MAX] {
        let mut accounts = vec![user_account(&user, 5_000, true), vault.clone()];
        let result = Processor::process_withdraw(&program, &mut accounts, amount);
        assert_eq!(result, Err(ErrorKind::IllegalOwner));
        assert_eq!(accounts[1], vault);
    }
}

#[test]
fn withdrawing_the_balance_leaves_zero_and_one_more_is_refused() {
    let program_id = Pubkey::new_from_array([7; 32]);
    let user = Pubkey::new_from_array([9; 32]);
    let pda = vault_pda(&program_id, &user);
    let program = identity(&program_id);
    let record = VaultAccount { owner: identity(&user), balance: 900, bump: 255 };
    let vault = Account { key: identity(&pda), is_signer: false, lamports: 5_000, data: record.encode() };

    let mut accounts = vec![user_account(&user, 100, true), vault.clone()];
    assert_eq!(Processor::process_withdraw(&program, &mut accounts, 901), Err(ErrorKind::InsufficientFunds));
    assert_eq!(accounts[1], vault);
    assert_eq!(accounts[0].lamports, 100);

    assert_eq!(Processor::process_withdraw(&program, &mut accounts, 900), Ok(Action::Done));
    assert_eq!(VaultAccount::decode(&accounts[1].data).unwrap().balance, 0);
    assert_eq!(accounts[1].lamports, 4_100);
    assert_eq!(accounts[0].lamports, 1_000);

    assert_eq!(Processor::process_withdraw(&program, &mut accounts, 0), Ok(Action::Done));
    assert_eq!(Processor::process_withdraw(&program, &mut accounts, 1), Err(ErrorKind::InsufficientFunds));
}

#[test]
fn withdrawal_needs_the_value_to_be_there() {
    let program_id = Pubkey::new_from_array([7; 32]);
    let user = Pubkey::new_from_array([9; 32]);
    let pda = vault_pda(&program_id, &user);
    let program = identity(&program_id);
    let record = VaultAccount { owner: identity(&user), balance: 900, bump: 255 };
    let vault = Account { key: identity(&pda), is_signer: false, lamports: 10, data: record.encode() };

    let mut accounts = vec![user_account(&user, 100, true), vault.clone()];
    assert_eq!(Processor::process_withdraw(&program, &mut accounts, 11), Err(ErrorKind::InsufficientFunds));
    let mut accounts = vec![user_account(&user, u64::MAX, true), vault.clone()];
    assert_eq!(Processor::process_withdraw(&program, &mut accounts, 1), Err(ErrorKind::Overflow));
    assert_eq!(accounts[0].lamports, u64::MAX);
    assert_eq!(accounts[1], vault);
}

#[test]
fn deposit_overflow_is_rejected_before_the_record_changes() {
    let program_id = Pubkey::new_from_array([7; 32]);
    let user = Pubkey::new_from_array([9; 32]);
    let pda = vault_pda(&program_id, &user);
    let program = identity(&program_id);
    let record = VaultAccount { owner: identity(&user), balance: u64::MAX - 5, bump: 255 };
    let vault = Account { key: identity(&pda), is_signer: false, lamports: 10, data: record.encode() };

    let mut accounts = vec![user_account(&user, 100, true), vault.clone(), system_program()];
    assert_eq!(deposit(&program, &mut accounts, 6), Err(Rejected::Vault(ErrorKind::Overflow)));
    assert_eq!(accounts[1], vault);
    assert_eq!(deposit(&program, &mut accounts, 5), Ok(()));
    assert_eq!(VaultAccount::decode(&accounts[1].data).unwrap().balance, u64::MAX);
}

#[test]
fn transfer_failure_is_the_hosts() {
    let program_id = Pubkey::new_from_array([7; 32]);
    let user = Pubkey::new_from_array([9; 32]);
    let pda = vault_pda(&program_id, &user);
    let program = identity(&program_id);
    let mut accounts =
        vec![user_account(&user, RESERVE + 10, true), user_account(&pda, 0, false), system_program()];
    let before = accounts.clone();
    assert_eq!(deposit(&program, &mut accounts, 11), Err(Rejected::Host));
    assert_eq!(accounts, before);
}

#[test]
fn malformed_record_is_rejected() {
    let program_id = Pubkey::new_from_array([7; 32]);
    let user = Pubkey::new_from_array([9; 32]);
    let pda = vault_pda(&program_id, &user);
    let program = identity(&program_id);
    let vault = Account { key: identity(&pda), is_signer: false, lamports: 10, data: vec![1; 40] };
    let mut accounts = vec![user_account(&user, 100, true), vault.clone(), system_program()];
    assert_eq!(withdraw(&program, &mut accounts, 0), Err(Rejected::Vault(ErrorKind::MalformedRecord)));
    assert_eq!(deposit(&program, &mut accounts, 1), Err(Rejected::Vault(ErrorKind::MalformedRecord)));
    assert_eq!(
        Processor::process_deposit(&program, &mut accounts, 1, Stage::Allocated),
        Err(ErrorKind::MalformedRecord)
    );
    assert_eq!(accounts[1], vault);
}

#[test]
fn bad_payload_is_an_invalid_instruction() {
    let program = Identity::new([7; 32]);
    let mut accounts: Vec<Account> = vec![];
    for data in [vec![], vec![0u8; 8], vec![0u8; 10], vec![2, 0, 0, 0, 0, 0, 0, 0, 0]] {
        assert_eq!(
            process_instruction(&program, &mut accounts, &data, Stage::Start),
            Err(ErrorKind::InvalidInstruction)
        );
        assert_eq!(
            Processor::process_instruction(&program, &mut accounts, &data, Stage::Start),
            Err(ErrorKind::InvalidInstruction)
        );
    }
}

#[test]
fn balance_is_the_net_of_what_was_accepted() {
    let program_id = Pubkey::new_from_array([7; 32]);
    let user = Pubkey::new_from_array([9; 32]);
    let pda = vault_pda(&program_id, &user);
    let program = identity(&program_id);
    let mut accounts =
        vec![user_account(&user, 10_000_000, true), user_account(&pda, 0, false), system_program()];
    let mut net: u64 = 0;
    let steps: [(bool, u64); 7] =
        [(true, 50), (false, 20), (false, 31), (true, 0), (true, 7), (false, 37), (false, 1)];
    for (is_deposit, amount) in steps {
        let outcome = if is_deposit {
            deposit(&program, &mut accounts, amount)
        } else {
            withdraw(&program, &mut accounts, amount)
        };
        if outcome.is_ok() {
            net = if is_deposit { net + amount } else { net - amount };
        }
        assert_eq!(VaultAccount::decode(&accounts[1].data).unwrap().balance, net);
    }
    assert_eq!(net, 0);
    assert_eq!(accounts[0].lamports, 10_000_000 - RESERVE);
    assert_eq!(accounts[1].lamports, RESERVE);
}
