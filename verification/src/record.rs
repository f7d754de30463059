use vstd::prelude::*;

use crate::address::Address;
use crate::address::dup_bytes;

verus! {

/// Largest company name, in bytes, that a vesting record can hold.
pub const MAX_COMPANY_NAME_LEN: usize = 50;

/// Bytes of storage the host allocates for a vesting record: an 8-byte
/// discriminator, three 32-byte addresses, a length-prefixed name sized for
/// `MAX_COMPANY_NAME_LEN` bytes, and the two bump seeds.
pub const VESTING_ACCOUNT_SPACE: usize = 8 + 3 * 32 + 4 + 50 + 1 + 1;

/// The persisted vesting record of one company: who administers the program,
/// which token it distributes, where its treasury lives, and the bump seeds
/// that prove both derived addresses canonical.
pub struct VestingAccount {
    /// Identity of the creator, entitled to administer this vesting program.
    pub owner: Address,
    /// Identifier of the token type this vesting program distributes.
    pub mint: Address,
    /// Address of the custodial token account that escrows the tokens.
    pub treasury_account: Address,
    /// Human-readable label and primary derivation seed; the unique key.
    pub company_name: Vec<u8>,
    /// Canonical bump seed of the treasury address derivation.
    pub treasury_bump: u8,
    /// Canonical bump seed of the vesting record address derivation.
    pub bump: u8,
}

/// The mathematical value of a vesting record.
pub ghost struct VestingRecord {
    pub owner: Seq<u8>,
    pub mint: Seq<u8>,
    pub treasury_account: Seq<u8>,
    pub company_name: Seq<u8>,
    pub treasury_bump: u8,
    pub bump: u8,
}

impl View for VestingAccount {
    type V = VestingRecord;

    open spec fn view(&self) -> VestingRecord {
        VestingRecord {
            owner: self.owner@,
            mint: self.mint@,
            treasury_account: self.treasury_account@,
            company_name: self.company_name@,
            treasury_bump: self.treasury_bump,
            bump: self.bump,
        }
    }
}

impl VestingAccount {
    /// An independent copy of the record.
    pub fn dup(&self) -> (r: VestingAccount)
        ensures
            r@ == self@,
    {
        VestingAccount {
            owner: self.owner.dup(),
            mint: self.mint.dup(),
            treasury_account: self.treasury_account.dup(),
            company_name: dup_bytes(&self.company_name),
            treasury_bump: self.treasury_bump,
            bump: self.bump,
        }
    }
}

/// What this core reads of a treasury token-holding account: the token type
/// it holds and the authority entitled to move it. The token standard owns
/// the rest of the account, which stays a black box here.
pub struct TreasuryTokenAccount {
    /// Identifier of the token type held.
    pub mint: Address,
    /// The identity entitled to move the held tokens.
    pub authority: Address,
}

/// The mathematical value of a treasury token account.
pub ghost struct TreasuryRecord {
    pub mint: Seq<u8>,
    pub authority: Seq<u8>,
}

impl View for TreasuryTokenAccount {
    type V = TreasuryRecord;

    open spec fn view(&self) -> TreasuryRecord {
        TreasuryRecord { mint: self.mint@, authority: self.authority@ }
    }
}

impl TreasuryTokenAccount {
    /// An independent copy of the account.
    pub fn dup(&self) -> (r: TreasuryTokenAccount)
        ensures
            r@ == self@,
    {
        TreasuryTokenAccount { mint: self.mint.dup(), authority: self.authority.dup() }
    }
}

/// The data held at one allocated ledger address.
pub enum AccountData {
    /// A vesting record, owned by this program.
    Vesting(VestingAccount),
    /// A treasury token account, owned by the token standard.
    Treasury(TreasuryTokenAccount),
}

/// The mathematical value of one allocated account.
pub ghost enum AccountView {
    Vesting(VestingRecord),
    Treasury(TreasuryRecord),
}

impl View for AccountData {
    type V = AccountView;

    open spec fn view(&self) -> AccountView {
        match self {
            AccountData::Vesting(v) => AccountView::Vesting(v@),
            AccountData::Treasury(t) => AccountView::Treasury(t@),
        }
    }
}

impl AccountData {
    /// An independent copy of the account data.
    pub fn dup(&self) -> (r: AccountData)
        ensures
            r@ == self@,
    {
        match self {
            AccountData::Vesting(v) => AccountData::Vesting(v.dup()),
            AccountData::Treasury(t) => AccountData::Treasury(t.dup()),
        }
    }
}

} // verus!
