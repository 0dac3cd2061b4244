use vstd::prelude::*;

use solana_program::pubkey::Pubkey;

use crate::identity::Identity;
use crate::states::{seed_bytes, VaultAccount};

verus! {

/// What `Pubkey::try_find_program_address` returns for the two seeds `tag`
/// and `owner` under the program `program`: the derived address with its
/// bump, or `None` where no bump gives an address. It is a function of these
/// bytes alone.
pub uninterp spec fn program_address(tag: Seq<u8>, owner: Seq<u8>, program: Seq<u8>) -> Option<
    (Seq<u8>, u8),
>;

/// Calls `Pubkey::try_find_program_address` of `solana_program` with the
/// seeds `[tag, owner]` and the program `program`. Nothing is proved of it:
/// the contract only gives the outcome its name, `program_address`, so that
/// the same bytes are known to give the same address and bump. The call
/// does not panic: seeds that are too long give `None`.
#[verifier::external_body]
fn try_find_program_address(tag: &[u8], owner: &[u8; 32], program: &[u8; 32]) -> (r: Option<
    ([u8; 32], u8),
>)
    ensures
        program_address(tag@, owner@, program@) == match r {
            Some((address, bump)) => Some((address@, bump)),
            None => None::<(Seq<u8>, u8)>,
        },
{
    let program_id = Pubkey::new_from_array(*program);
    match Pubkey::try_find_program_address(&[tag, owner.as_slice()], &program_id) {
        Some((address, bump)) => Some((address.to_bytes(), bump)),
        None => None,
    }
}

/// The address and bump of the vault of `owner` under `program`: derived
/// from the seed tag and the owner's bytes.
pub open spec fn vault_address(owner: Seq<u8>, program: Seq<u8>) -> Option<(Seq<u8>, u8)> {
    program_address(seed_bytes(), owner, program)
}

/// The bump of the vault of `owner` under `program`, where it has an address.
pub open spec fn vault_bump(owner: Seq<u8>, program: Seq<u8>) -> u8 {
    vault_address(owner, program).unwrap().1
}

/// Whether `address` is where the vault of `owner` under `program` lives.
pub open spec fn is_vault_of(address: Seq<u8>, owner: Seq<u8>, program: Seq<u8>) -> bool {
    match vault_address(owner, program) {
        Some((derived, _)) => derived == address,
        None => false,
    }
}

/// Whether `r` is what the derivation answers for `owner` under `program`.
pub open spec fn is_derived(owner: Identity, program: Identity, r: Option<(Identity, u8)>) -> bool {
    vault_address(owner@, program@) == match r {
        Some((address, bump)) => Some((address@, bump)),
        None => None::<(Seq<u8>, u8)>,
    }
}

/// Derivation is repeatable: two answers for the same owner under the same
/// program are the same address and the same bump.
pub proof fn lemma_derivation_repeats(
    owner: Identity,
    program: Identity,
    first: Option<(Identity, u8)>,
    second: Option<(Identity, u8)>,
)
    requires
        is_derived(owner, program, first),
        is_derived(owner, program, second),
    ensures
        first == second,
{
    if let Some((a, _)) = first {
        let b = second.unwrap().0;
        assert(a.bytes@ =~= b.bytes@);
        assert(a.bytes == b.bytes);
    }
}

/// Derives the vault's address and bump for `owner` under `program`. The
/// result depends on the two identities alone: every call with the same
/// bytes returns the same address and bump.
pub fn derive_address(owner: &Identity, program: &Identity) -> (r: Option<(Identity, u8)>)
    ensures
        is_derived(*owner, *program, r),
{
    let tag = VaultAccount::seed();
    match try_find_program_address(tag, &owner.bytes, &program.bytes) {
        Some((address, bump)) => Some((Identity::new(address), bump)),
        None => None,
    }
}

} // verus!
