use vstd::prelude::*;

use crate::error::ErrorKind;
use crate::states::{le_value, lemma_bytes_le_value, read_u64, u64_le, write_u64};

verus! {

/// The two operations of the vault.
#[derive(Clone, Copy, Debug, PartialEq, Eq, Structural)]
pub enum VaultIx {
    Deposit { amount: u64 },
    Withdraw { amount: u64 },
}

/// The payload's tag for a deposit.
pub const TAG_DEPOSIT: u8 = 0;

/// The payload's tag for a withdrawal.
pub const TAG_WITHDRAW: u8 = 1;

/// The width of a payload: the tag and the amount.
pub const IX_LEN: usize = 9;

/// The payload of an instruction: its tag, then the amount, low byte first.
pub open spec fn ix_bytes(ix: VaultIx) -> Seq<u8> {
    match ix {
        VaultIx::Deposit { amount } => seq![0u8] + u64_le(amount),
        VaultIx::Withdraw { amount } => seq![1u8] + u64_le(amount),
    }
}

/// The instruction that a payload stands for, if any: nine bytes, of which
/// the first is a known tag.
pub open spec fn ix_of(data: Seq<u8>) -> Option<VaultIx> {
    if data.len() != 9 {
        None
    } else if data[0] == 0 {
        Some(VaultIx::Deposit { amount: le_value(data.subrange(1, 9)) as u64 })
    } else if data[0] == 1 {
        Some(VaultIx::Withdraw { amount: le_value(data.subrange(1, 9)) as u64 })
    } else {
        None
    }
}

/// A payload read back is the instruction that was written.
pub proof fn lemma_ix_round_trip(ix: VaultIx)
    ensures
        ix_bytes(ix).len() == 9,
        ix_of(ix_bytes(ix)) == Some(ix),
{
    lemma_bytes_le_value(ix.amount());
    assert(ix_bytes(ix).subrange(1, 9) =~= u64_le(ix.amount()));
}

impl VaultIx {
    /// The amount that the instruction moves.
    pub open spec fn amount(self) -> u64 {
        match self {
            VaultIx::Deposit { amount } => amount,
            VaultIx::Withdraw { amount } => amount,
        }
    }

    /// Reads a payload. Anything that is not nine bytes with a known tag is
    /// `InvalidInstruction`.
    pub fn decode(data: &[u8]) -> (r: Result<VaultIx, ErrorKind>)
        ensures
            r == match ix_of(data@) {
                Some(ix) => Ok::<VaultIx, ErrorKind>(ix),
                None => Err(ErrorKind::InvalidInstruction),
            },
    {
        if data.len() != IX_LEN {
            return Err(ErrorKind::InvalidInstruction);
        }
        let tag: u8 = data[0];
        if tag == TAG_DEPOSIT {
            Ok(VaultIx::Deposit { amount: read_u64(data, 1) })
        } else if tag == TAG_WITHDRAW {
            Ok(VaultIx::Withdraw { amount: read_u64(data, 1) })
        } else {
            Err(ErrorKind::InvalidInstruction)
        }
    }

    /// Writes the payload of this instruction.
    pub fn encode(&self) -> (r: Vec<u8>)
        ensures
            r@ == ix_bytes(*self),
            r@.len() == 9,
    {
        let mut out: Vec<u8> = Vec::new();
        match self {
            VaultIx::Deposit { amount } => {
                out.push(TAG_DEPOSIT);
                write_u64(&mut out, *amount);
            },
            VaultIx::Withdraw { amount } => {
                out.push(TAG_WITHDRAW);
                write_u64(&mut out, *amount);
            },
        }
        assert(out@ =~= ix_bytes(*self));
        out
    }
}

} // verus!
