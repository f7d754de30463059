use vstd::prelude::*;

use crate::address::Address;
use crate::address::dup_bytes;
use crate::derive::pda_of;
use crate::derive::pda_result_matches;
use crate::derive::treasury_seed_prefix_bytes;
use crate::derive::treasury_seeds;
use crate::derive::try_find_pda;
use crate::derive::vesting_seeds;
use crate::ledger::Ledger;
use crate::ledger::LedgerView;
use crate::record::AccountData;
use crate::record::AccountView;
use crate::record::MAX_COMPANY_NAME_LEN;
use crate::record::TreasuryRecord;
use crate::record::TreasuryTokenAccount;
use crate::record::VestingAccount;
use crate::record::VestingRecord;

verus! {

/// Why a provisioning attempt failed. Every failure is terminal for the
/// attempt and leaves the ledger exactly as it was.
#[derive(Clone, Copy, Debug, PartialEq, Eq, Structural)]
pub enum ProvisionError {
    /// The derived vesting address already holds an account: the company
    /// name was used before.
    DuplicateCompanyName,
    /// The supplied mint is not a token type the token standard recognises.
    InvalidMint,
    /// The company name does not fit the fixed record space.
    NameTooLong,
    /// The requester cannot fund both allocations.
    InsufficientFunding,
    /// No canonical bump seed exists for one of the two seed strings.
    DerivationFailure,
}

/// One provisioning request: who signs and funds it, which token type the
/// program will distribute, and the company name that seeds both addresses.
pub struct CreateVestingAccount {
    /// The signing identity that funds both allocations and becomes owner.
    pub requester: Address,
    /// The token type the vesting program will distribute.
    pub mint: Address,
    /// The company name, at most `MAX_COMPANY_NAME_LEN` bytes.
    pub company_name: Vec<u8>,
}

/// The account provisioner, carrying the one piece of process-wide
/// configuration: the fixed identity under which both addresses are derived.
pub struct Provisioner {
    /// The fixed on-chain identity of this program.
    pub program_id: Address,
}

/// The outcome of one provisioning attempt against ledger state `l`: the
/// record that is written, or the one error the host reports.
pub open spec fn create_result(
    program_id: Seq<u8>,
    l: LedgerView,
    requester: Seq<u8>,
    mint: Seq<u8>,
    name: Seq<u8>,
) -> Result<VestingRecord, ProvisionError> {
    if name.len() > MAX_COMPANY_NAME_LEN {
        Err(ProvisionError::NameTooLong)
    } else {
        match (pda_of(vesting_seeds(name), program_id), pda_of(treasury_seeds(name), program_id)) {
            (Some(v), Some(t)) => {
                if l.accounts.contains_key(v.0) || l.accounts.contains_key(t.0) || v.0 == t.0 {
                    Err(ProvisionError::DuplicateCompanyName)
                } else if !l.mints.contains(mint) {
                    Err(ProvisionError::InvalidMint)
                } else if l.balance(requester) < l.vesting_rent + l.treasury_rent {
                    Err(ProvisionError::InsufficientFunding)
                } else {
                    Ok(
                        VestingRecord {
                            owner: requester,
                            mint: mint,
                            treasury_account: t.0,
                            company_name: name,
                            treasury_bump: t.1,
                            bump: v.1,
                        },
                    )
                }
            },
            _ => Err(ProvisionError::DerivationFailure),
        }
    }
}

/// The ledger state after one provisioning attempt: on success both
/// allocations and the rent charge, atomically; on any failure the state
/// unchanged, with no partial effect.
pub open spec fn create_transition(
    program_id: Seq<u8>,
    l: LedgerView,
    requester: Seq<u8>,
    mint: Seq<u8>,
    name: Seq<u8>,
) -> LedgerView {
    match (
        create_result(program_id, l, requester, mint, name),
        pda_of(vesting_seeds(name), program_id),
        pda_of(treasury_seeds(name), program_id),
    ) {
        (Ok(rec), Some(v), Some(t)) => LedgerView {
            accounts: l.accounts.insert(v.0, AccountView::Vesting(rec)).insert(
                t.0,
                AccountView::Treasury(TreasuryRecord { mint: mint, authority: requester }),
            ),
            balances: l.balances.insert(
                requester,
                (l.balance(requester) - l.vesting_rent - l.treasury_rent) as u64,
            ),
            mints: l.mints,
            vesting_rent: l.vesting_rent,
            treasury_rent: l.treasury_rent,
        },
        _ => l,
    }
}

/// Holds when the returned record or error `r` reports exactly the
/// mathematical outcome `s`.
pub open spec fn result_matches(
    r: Result<VestingAccount, ProvisionError>,
    s: Result<VestingRecord, ProvisionError>,
) -> bool {
    match (r, s) {
        (Ok(v), Ok(sv)) => v@ == sv,
        (Err(e), Err(se)) => e == se,
        _ => false,
    }
}

impl Provisioner {
    /// Well-formed: the program identity is a full 32-byte address.
    pub open spec fn wf(&self) -> bool {
        self.program_id.wf()
    }

    /// A provisioner for the program with the given fixed identity.
    pub fn new(program_id: Address) -> (r: Provisioner)
        requires
            program_id.wf(),
        ensures
            r.wf(),
            r.program_id@ == program_id@,
    {
        Provisioner { program_id }
    }

    /// The canonical vesting record address and bump seed for
    /// `company_name`, a function of the name and the program identity
    /// alone.
    pub fn derive_vesting_address(&self, company_name: &Vec<u8>) -> (r: Option<(Address, u8)>)
        requires
            self.wf(),
        ensures
            pda_result_matches(r, vesting_seeds(company_name@), self.program_id@),
    {
        let mut seeds: Vec<Vec<u8>> = Vec::new();
        seeds.push(dup_bytes(company_name));
        proof {
            assert(seeds@.map_values(|s: Vec<u8>| s@) =~= vesting_seeds(company_name@));
        }
        try_find_pda(&seeds, &self.program_id)
    }

    /// The canonical treasury address and bump seed for `company_name`,
    /// derived under the fixed treasury namespace prefix.
    pub fn derive_treasury_address(&self, company_name: &Vec<u8>) -> (r: Option<(Address, u8)>)
        requires
            self.wf(),
        ensures
            pda_result_matches(r, treasury_seeds(company_name@), self.program_id@),
    {
        let mut seeds: Vec<Vec<u8>> = Vec::new();
        seeds.push(treasury_seed_prefix_bytes());
        seeds.push(dup_bytes(company_name));
        proof {
            assert(seeds@.map_values(|s: Vec<u8>| s@) =~= treasury_seeds(company_name@));
        }
        try_find_pda(&seeds, &self.program_id)
    }

    /// Provisions the vesting record and the treasury token account for one
    /// company, all or nothing: derives both canonical addresses from the
    /// company name, charges the requester the rent for both allocations,
    /// writes both accounts, and returns the persisted record. On any
    /// failure the ledger is left exactly as it was.
    pub fn create_vesting_account(
        &self,
        ledger: &mut Ledger,
        request: &CreateVestingAccount,
    ) -> (r: Result<VestingAccount, ProvisionError>)
        requires
            self.wf(),
        ensures
            final(ledger)@ == create_transition(
                self.program_id@,
                old(ledger)@,
                request.requester@,
                request.mint@,
                request.company_name@,
            ),
            result_matches(
                r,
                create_result(
                    self.program_id@,
                    old(ledger)@,
                    request.requester@,
                    request.mint@,
                    request.company_name@,
                ),
            ),
    {
        if request.company_name.len() > MAX_COMPANY_NAME_LEN {
            return Err(ProvisionError::NameTooLong);
        }
        let vd = self.derive_vesting_address(&request.company_name);
        let td = self.derive_treasury_address(&request.company_name);
        let (vesting_address, bump) = match vd {
            Some(p) => p,
            None => {
                return Err(ProvisionError::DerivationFailure);
            },
        };
        let (treasury_address, treasury_bump) = match td {
            Some(p) => p,
            None => {
                return Err(ProvisionError::DerivationFailure);
            },
        };
        if ledger.has_account(&vesting_address) || ledger.has_account(&treasury_address)
            || vesting_address.eq_address(&treasury_address) {
            return Err(ProvisionError::DuplicateCompanyName);
        }
        if !ledger.has_mint(&request.mint) {
            return Err(ProvisionError::InvalidMint);
        }
        let vesting_rent = ledger.vesting_rent();
        let treasury_rent = ledger.treasury_rent();
        if treasury_rent > u64::MAX - vesting_rent {
            return Err(ProvisionError::InsufficientFunding);
        }
        let cost = vesting_rent + treasury_rent;
        let balance = ledger.balance_of(&request.requester);
        if balance < cost {
            return Err(ProvisionError::InsufficientFunding);
        }
        ledger.debit(&request.requester, cost);
        let record = VestingAccount {
            owner: request.requester.dup(),
            mint: request.mint.dup(),
            treasury_account: treasury_address.dup(),
            company_name: dup_bytes(&request.company_name),
            treasury_bump,
            bump,
        };
        ledger.put_account(vesting_address, AccountData::Vesting(record.dup()));
        ledger.put_account(
            treasury_address,
            AccountData::Treasury(
                TreasuryTokenAccount {
                    mint: request.mint.dup(),
                    authority: request.requester.dup(),
                },
            ),
        );
        Ok(record)
    }
}

} // verus!
