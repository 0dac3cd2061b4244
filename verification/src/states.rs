use vstd::prelude::*;

use crate::error::{DecodeError, ErrorKind};
use crate::identity::Identity;

verus! {

/// The eight bytes of `x`, low byte first: each is the remainder by 256 of
/// what the bytes before it left.
pub open spec fn u64_le(x: u64) -> Seq<u8> {
    let x1 = x / 0x100;
    let x2 = x1 / 0x100;
    let x3 = x2 / 0x100;
    let x4 = x3 / 0x100;
    let x5 = x4 / 0x100;
    let x6 = x5 / 0x100;
    let x7 = x6 / 0x100;
    seq![
        (x % 0x100) as u8,
        (x1 % 0x100) as u8,
        (x2 % 0x100) as u8,
        (x3 % 0x100) as u8,
        (x4 % 0x100) as u8,
        (x5 % 0x100) as u8,
        (x6 % 0x100) as u8,
        (x7 % 0x100) as u8,
    ]
}

/// The number that eight bytes spell, low byte first.
pub open spec fn le_value(s: Seq<u8>) -> int {
    s[0] + 0x100 * (s[1] + 0x100 * (s[2] + 0x100 * (s[3] + 0x100 * (s[4] + 0x100 * (s[5] + 0x100
        * (s[6] + 0x100 * s[7]))))))
}

/// Eight bytes spell a number of 64 bits, and writing that number gives the
/// bytes back.
pub proof fn lemma_le_value_bytes(s: Seq<u8>)
    requires
        s.len() == 8,
    ensures
        0 <= le_value(s) <= u64::MAX,
        u64_le(le_value(s) as u64) == s,
{
    let v7: int = s[7] as int;
    let v6: int = s[6] + 0x100 * v7;
    let v5: int = s[5] + 0x100 * v6;
    let v4: int = s[4] + 0x100 * v5;
    let v3: int = s[3] + 0x100 * v4;
    let v2: int = s[2] + 0x100 * v3;
    let v1: int = s[1] + 0x100 * v2;
    let v0: int = s[0] + 0x100 * v1;
    assert(v0 == le_value(s));
    assert(v6 / 0x100 == v7 && v6 % 0x100 == s[6]);
    assert(v5 / 0x100 == v6 && v5 % 0x100 == s[5]);
    assert(v4 / 0x100 == v5 && v4 % 0x100 == s[4]);
    assert(v3 / 0x100 == v4 && v3 % 0x100 == s[3]);
    assert(v2 / 0x100 == v3 && v2 % 0x100 == s[2]);
    assert(v1 / 0x100 == v2 && v1 % 0x100 == s[1]);
    assert(v0 / 0x100 == v1 && v0 % 0x100 == s[0]);
    assert(0 <= v0 <= u64::MAX);
    assert(u64_le(v0 as u64) =~= s);
}

/// Reading the bytes of a number gives the number back.
pub proof fn lemma_bytes_le_value(x: u64)
    ensures
        u64_le(x).len() == 8,
        le_value(u64_le(x)) == x,
{
    let x1 = x / 0x100;
    let x2 = x1 / 0x100;
    let x3 = x2 / 0x100;
    let x4 = x3 / 0x100;
    let x5 = x4 / 0x100;
    let x6 = x5 / 0x100;
    let x7 = x6 / 0x100;
    assert(x7 < 0x100);
    assert(x6 == x6 % 0x100 + 0x100 * x7);
    assert(x5 == x5 % 0x100 + 0x100 * x6);
    assert(x4 == x4 % 0x100 + 0x100 * x5);
    assert(x3 == x3 % 0x100 + 0x100 * x4);
    assert(x2 == x2 % 0x100 + 0x100 * x3);
    assert(x1 == x1 % 0x100 + 0x100 * x2);
    assert(x == x % 0x100 + 0x100 * x1);
}

/// Reads eight bytes of `data` from `at` on as a number, low byte first.
pub fn read_u64(data: &[u8], at: usize) -> (r: u64)
    requires
        at + 8 <= data@.len(),
    ensures
        r == le_value(data@.subrange(at as int, at + 8)),
{
    let len: usize = data.len();
    assert(at + 8 <= len);
    let v7: u64 = data[at + 7] as u64;
    let v6: u64 = data[at + 6] as u64 + 0x100 * v7;
    let v5: u64 = data[at + 5] as u64 + 0x100 * v6;
    let v4: u64 = data[at + 4] as u64 + 0x100 * v5;
    let v3: u64 = data[at + 3] as u64 + 0x100 * v4;
    let v2: u64 = data[at + 2] as u64 + 0x100 * v3;
    let v1: u64 = data[at + 1] as u64 + 0x100 * v2;
    data[at] as u64 + 0x100 * v1
}

/// Appends the eight bytes of `x` to `out`, low byte first.
pub fn write_u64(out: &mut Vec<u8>, x: u64)
    ensures
        final(out)@ == old(out)@ + u64_le(x),
{
    let x1: u64 = x / 0x100;
    let x2: u64 = x1 / 0x100;
    let x3: u64 = x2 / 0x100;
    let x4: u64 = x3 / 0x100;
    let x5: u64 = x4 / 0x100;
    let x6: u64 = x5 / 0x100;
    let x7: u64 = x6 / 0x100;
    out.push((x % 0x100) as u8);
    out.push((x1 % 0x100) as u8);
    out.push((x2 % 0x100) as u8);
    out.push((x3 % 0x100) as u8);
    out.push((x4 % 0x100) as u8);
    out.push((x5 % 0x100) as u8);
    out.push((x6 % 0x100) as u8);
    out.push((x7 % 0x100) as u8);
    assert(out@ =~= old(out)@ + u64_le(x));
}

/// What a vault record says: who owns it, how much it holds, and the bump
/// with which its address was derived.
pub ghost struct VaultRecord {
    pub owner: Seq<u8>,
    pub balance: u64,
    pub bump: u8,
}

impl VaultRecord {
    /// The record after `amount` is added, unless the balance would pass
    /// the largest 64-bit value.
    pub open spec fn credit(self, amount: u64) -> Option<VaultRecord> {
        if self.balance + amount <= u64::MAX {
            Some(VaultRecord { balance: (self.balance + amount) as u64, ..self })
        } else {
            None
        }
    }

    /// The record after `amount` is taken out, unless it holds less.
    pub open spec fn debit(self, amount: u64) -> Option<VaultRecord> {
        if amount <= self.balance {
            Some(VaultRecord { balance: (self.balance - amount) as u64, ..self })
        } else {
            None
        }
    }
}

/// The stored form of a record: owner, balance (low byte first), bump.
pub open spec fn record_bytes(r: VaultRecord) -> Seq<u8> {
    r.owner + u64_le(r.balance) + seq![r.bump]
}

/// The record that 41 bytes store.
pub open spec fn bytes_record(s: Seq<u8>) -> VaultRecord {
    VaultRecord {
        owner: s.subrange(0, 32),
        balance: le_value(s.subrange(32, 40)) as u64,
        bump: s[40],
    }
}

/// A record read back from its stored form is the record that was stored.
pub proof fn lemma_record_round_trip(r: VaultRecord)
    requires
        r.owner.len() == 32,
    ensures
        record_bytes(r).len() == 41,
        bytes_record(record_bytes(r)) == r,
{
    let s = record_bytes(r);
    assert(s.subrange(0, 32) =~= r.owner);
    assert(s.subrange(32, 40) =~= u64_le(r.balance));
    lemma_bytes_le_value(r.balance);
}

/// Storing the record that 41 bytes hold gives the same 41 bytes.
pub proof fn lemma_bytes_round_trip(s: Seq<u8>)
    requires
        s.len() == 41,
    ensures
        record_bytes(bytes_record(s)) == s,
{
    lemma_le_value_bytes(s.subrange(32, 40));
    assert(record_bytes(bytes_record(s)) =~= s);
}

/// The one persisted entity: a vault's record.
#[derive(Clone, Copy, Debug, PartialEq, Eq)]
pub struct VaultAccount {
    pub owner: Identity,
    pub balance: u64,
    pub bump: u8,
}

impl View for VaultAccount {
    type V = VaultRecord;

    open spec fn view(&self) -> VaultRecord {
        VaultRecord { owner: self.owner@, balance: self.balance, bump: self.bump }
    }
}

/// The bytes of the seed tag, `vault_account` in ASCII.
pub open spec fn seed_bytes() -> Seq<u8> {
    seq![118u8, 97u8, 117u8, 108u8, 116u8, 95u8, 97u8, 99u8, 99u8, 111u8, 117u8, 110u8, 116u8]
}

impl VaultAccount {
    /// The width of a stored record: 32 + 8 + 1.
    pub const LEN: usize = 41;

    /// The seed tag from which, with the owner, a vault's address is derived.
    pub const SEED: &'static str = "vault_account";

    /// The seed tag as bytes.
    pub fn seed() -> (r: &'static [u8])
        ensures
            r@ == seed_bytes(),
    {
        let r = VaultAccount::SEED.as_bytes();
        proof {
            reveal_strlit("vault_account");
            vstd::string::is_ascii_spec_bytes(VaultAccount::SEED);
            assert(vstd::string::is_ascii(VaultAccount::SEED));
            assert(r@ =~= seed_bytes());
        }
        r
    }

    /// The record with `amount` added to its balance; `Overflow` where the
    /// balance would pass the largest 64-bit value.
    pub fn credit(&self, amount: u64) -> (r: Result<VaultAccount, ErrorKind>)
        ensures
            match self@.credit(amount) {
                Some(n) => r is Ok && r.unwrap()@ == n && r.unwrap().owner == self.owner,
                None => r == Err::<VaultAccount, ErrorKind>(ErrorKind::Overflow),
            },
    {
        match self.balance.checked_add(amount) {
            Some(balance) => Ok(VaultAccount { owner: self.owner, balance, bump: self.bump }),
            None => Err(ErrorKind::Overflow),
        }
    }

    /// The record with `amount` taken off its balance; `InsufficientFunds`
    /// where it holds less.
    pub fn debit(&self, amount: u64) -> (r: Result<VaultAccount, ErrorKind>)
        ensures
            match self@.debit(amount) {
                Some(n) => r is Ok && r.unwrap()@ == n && r.unwrap().owner == self.owner,
                None => r == Err::<VaultAccount, ErrorKind>(ErrorKind::InsufficientFunds),
            },
    {
        if self.balance < amount {
            return Err(ErrorKind::InsufficientFunds);
        }
        Ok(VaultAccount { owner: self.owner, balance: self.balance - amount, bump: self.bump })
    }

    /// Reads a record. The buffer must hold exactly the record's 41 bytes;
    /// neither the balance nor the owner is judged.
    pub fn decode(data: &[u8]) -> (r: Result<VaultAccount, DecodeError>)
        ensures
            r is Ok <==> data@.len() == 41,
            r matches Ok(v) ==> v@ == bytes_record(data@),
            r matches Err(e) ==> e == DecodeError::Malformed,
    {
        if data.len() != VaultAccount::LEN {
            return Err(DecodeError::Malformed);
        }
        let mut owner: [u8; 32] = [0; 32];
        let mut i: usize = 0;
        while i < 32
            invariant
                i <= 32,
                data@.len() == 41,
                forall|j: int| 0 <= j < i ==> owner@[j] == data@[j],
            decreases 32 - i,
        {
            owner[i] = data[i];
            i += 1;
        }
        assert(owner@ =~= data@.subrange(0, 32));
        let balance: u64 = read_u64(data, 32);
        Ok(VaultAccount { owner: Identity::new(owner), balance, bump: data[40] })
    }

    /// Writes the record's 41 bytes.
    pub fn encode(&self) -> (r: Vec<u8>)
        ensures
            r@ == record_bytes(self@),
            r@.len() == 41,
    {
        let mut out: Vec<u8> = Vec::new();
        let mut i: usize = 0;
        while i < 32
            invariant
                i <= 32,
                out@ == self.owner.bytes@.subrange(0, i as int),
            decreases 32 - i,
        {
            out.push(self.owner.bytes[i]);
            assert(out@ =~= self.owner.bytes@.subrange(0, i + 1));
            i += 1;
        }
        assert(out@ =~= self.owner@);
        write_u64(&mut out, self.balance);
        out.push(self.bump);
        assert(out@ =~= record_bytes(self@));
        out
    }

    /// Writes the record over the first 41 bytes of `data`, and leaves what
    /// follows them. A shorter buffer is refused and left as it is.
    pub fn store(&self, data: &mut Vec<u8>) -> (r: Result<(), DecodeError>)
        ensures
            r is Ok <==> old(data)@.len() >= 41,
            r is Ok ==> final(data)@ == stored(self@, old(data)@),
            r is Err ==> final(data)@ == old(data)@,
    {
        if data.len() < VaultAccount::LEN {
            return Err(DecodeError::Malformed);
        }
        let bytes = self.encode();
        let mut i: usize = 0;
        while i < 41
            invariant
                i <= 41,
                bytes@.len() == 41,
                old(data)@.len() >= 41,
                data@.len() == old(data)@.len(),
                forall|j: int| 0 <= j < i ==> data@[j] == bytes@[j],
                forall|j: int| i <= j < data@.len() ==> data@[j] == old(data)@[j],
            decreases 41 - i,
        {
            data[i] = bytes[i];
            i += 1;
        }
        assert(data@ =~= stored(self@, old(data)@));
        Ok(())
    }
}

/// A buffer of at least 41 bytes after `r` was written over its start.
pub open spec fn stored(r: VaultRecord, data: Seq<u8>) -> Seq<u8> {
    record_bytes(r) + data.subrange(41, data.len() as int)
}

} // verus!
