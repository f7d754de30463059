use vstd::prelude::*;

use crate::address::Address;
use crate::derive::pda_of;
use crate::derive::pda_result_matches;
use crate::derive::treasury_seeds;
use crate::derive::vesting_seeds;
use crate::ledger::LedgerView;
use crate::provision::ProvisionError;
use crate::provision::create_result;
use crate::provision::create_transition;
use crate::record::AccountView;
use crate::record::MAX_COMPANY_NAME_LEN;
use crate::record::TreasuryRecord;
use crate::record::VestingRecord;

verus! {

/// Determinism: any two derivation results that the derivation contract
/// admits for the same seeds and the same program identity name the same
/// address and the same canonical bump seed.
pub proof fn lemma_derivation_deterministic(
    r1: Option<(Address, u8)>,
    r2: Option<(Address, u8)>,
    seeds: Seq<Seq<u8>>,
    program_id: Seq<u8>,
)
    requires
        pda_result_matches(r1, seeds, program_id),
        pda_result_matches(r2, seeds, program_id),
    ensures
        r1 is Some <==> r2 is Some,
        r1 matches Some(p1) ==> (r2 matches Some(p2) && p1.0@ == p2.0@ && p1.1 == p2.1),
{
}

/// Uniqueness: once a company name is provisioned, a second attempt with the
/// same name — whatever its requester and mint — fails with
/// `DuplicateCompanyName` and leaves the ledger, the first record included,
/// exactly as it stood.
pub proof fn lemma_duplicate_name_rejected(
    program_id: Seq<u8>,
    l: LedgerView,
    requester1: Seq<u8>,
    mint1: Seq<u8>,
    requester2: Seq<u8>,
    mint2: Seq<u8>,
    name: Seq<u8>,
)
    requires
        create_result(program_id, l, requester1, mint1, name) is Ok,
    ensures
        ({
            let l1 = create_transition(program_id, l, requester1, mint1, name);
            &&& create_result(program_id, l1, requester2, mint2, name) == Err::<
                VestingRecord,
                ProvisionError,
            >(ProvisionError::DuplicateCompanyName)
            &&& create_transition(program_id, l1, requester2, mint2, name) == l1
        }),
{
}

/// Namespace separation, as far as this core can state it: a successful
/// creation never finds the treasury at the vesting record's own address,
/// so the two allocations are always distinct. That the derived addresses
/// of two distinct names also never collide is a property of the outside
/// hash, exercised on concrete names by the tests.
pub proof fn lemma_treasury_address_separate(
    program_id: Seq<u8>,
    l: LedgerView,
    requester: Seq<u8>,
    mint: Seq<u8>,
    name: Seq<u8>,
)
    requires
        create_result(program_id, l, requester, mint, name) is Ok,
    ensures
        pda_of(vesting_seeds(name), program_id) matches Some(v) && pda_of(
            treasury_seeds(name),
            program_id,
        ) matches Some(t) && v.0 != t.0,
{
}

/// Field fidelity: a successful creation returns and persists a record that
/// holds exactly the requester as owner, the requested mint, the derived
/// treasury address, the company name, and the two canonical bump seeds;
/// and it records the treasury with the owner as its authority.
pub proof fn lemma_field_fidelity(
    program_id: Seq<u8>,
    l: LedgerView,
    requester: Seq<u8>,
    mint: Seq<u8>,
    name: Seq<u8>,
)
    requires
        create_result(program_id, l, requester, mint, name) is Ok,
    ensures
        ({
            let l1 = create_transition(program_id, l, requester, mint, name);
            &&& create_result(program_id, l, requester, mint, name) matches Ok(rec)
            &&& pda_of(vesting_seeds(name), program_id) matches Some(v)
            &&& pda_of(treasury_seeds(name), program_id) matches Some(t)
            &&& rec == (VestingRecord {
                owner: requester,
                mint: mint,
                treasury_account: t.0,
                company_name: name,
                treasury_bump: t.1,
                bump: v.1,
            })
            &&& l1.accounts.contains_key(v.0)
            &&& l1.accounts[v.0] == AccountView::Vesting(rec)
            &&& l1.accounts.contains_key(t.0)
            &&& l1.accounts[t.0] == AccountView::Treasury(
                TreasuryRecord { mint: mint, authority: requester },
            )
        }),
{
}

/// Length boundary: a company name over the bound is rejected as
/// `NameTooLong` with the ledger untouched, and a name within the bound is
/// never rejected for its length.
pub proof fn lemma_name_length_boundary(
    program_id: Seq<u8>,
    l: LedgerView,
    requester: Seq<u8>,
    mint: Seq<u8>,
    name: Seq<u8>,
)
    ensures
        name.len() > MAX_COMPANY_NAME_LEN ==> create_result(program_id, l, requester, mint, name)
            == Err::<VestingRecord, ProvisionError>(ProvisionError::NameTooLong)
            && create_transition(program_id, l, requester, mint, name) == l,
        name.len() <= MAX_COMPANY_NAME_LEN ==> create_result(program_id, l, requester, mint, name)
            != Err::<VestingRecord, ProvisionError>(ProvisionError::NameTooLong),
{
}

/// Funding boundary: when the request is valid in every other way but the
/// requester cannot cover the rent of both allocations, the whole attempt
/// fails with `InsufficientFunding` and the ledger keeps its exact prior
/// state — neither address is left holding anything.
pub proof fn lemma_insufficient_funding(
    program_id: Seq<u8>,
    l: LedgerView,
    requester: Seq<u8>,
    mint: Seq<u8>,
    name: Seq<u8>,
)
    requires
        name.len() <= MAX_COMPANY_NAME_LEN,
        ({
            &&& pda_of(vesting_seeds(name), program_id) matches Some(v)
            &&& pda_of(treasury_seeds(name), program_id) matches Some(t)
            &&& !l.accounts.contains_key(v.0)
            &&& !l.accounts.contains_key(t.0)
            &&& v.0 != t.0
        }),
        l.mints.contains(mint),
        l.balance(requester) < l.vesting_rent + l.treasury_rent,
    ensures
        create_result(program_id, l, requester, mint, name) == Err::<
            VestingRecord,
            ProvisionError,
        >(ProvisionError::InsufficientFunding),
        create_transition(program_id, l, requester, mint, name) == l,
{
}

/// Immutability: no provisioning attempt, whatever its arguments, alters or
/// removes an account that is already allocated — once created, a record's
/// fields can never change, since creation is the only operation.
pub proof fn lemma_records_immutable(
    program_id: Seq<u8>,
    l: LedgerView,
    requester: Seq<u8>,
    mint: Seq<u8>,
    name: Seq<u8>,
    addr: Seq<u8>,
)
    requires
        l.accounts.contains_key(addr),
    ensures
        create_transition(program_id, l, requester, mint, name).accounts.contains_key(addr),
        create_transition(program_id, l, requester, mint, name).accounts[addr]
            == l.accounts[addr],
{
}

} // verus!
