use vstd::prelude::*;

use crate::address::Address;

verus! {

/// The fixed seed prefix that puts treasury addresses in their own
/// derivation namespace: the bytes of "vesting_treasure".
pub open spec fn treasury_seed_prefix() -> Seq<u8> {
    seq![118u8, 101, 115, 116, 105, 110, 103, 95, 116, 114, 101, 97, 115, 117, 114, 101]
}

/// The seeds of a company's vesting record address: the company name alone,
/// so the address is a pure function of the name.
pub open spec fn vesting_seeds(name: Seq<u8>) -> Seq<Seq<u8>> {
    seq![name]
}

/// The seeds of a company's treasury address: the fixed prefix, then the
/// company name.
pub open spec fn treasury_seeds(name: Seq<u8>) -> Seq<Seq<u8>> {
    seq![treasury_seed_prefix(), name]
}

/// The canonical program-derived address and bump seed for the given seeds
/// under the given program identity, or `None` where no bump seed yields an
/// off-curve address or the seeds break the host's limits. The derivation is
/// a hash of its arguments alone; its value is only named here.
pub uninterp spec fn pda_of(seeds: Seq<Seq<u8>>, program_id: Seq<u8>) -> Option<(Seq<u8>, u8)>;

/// Holds when `r` reports exactly what `pda_of(seeds, program_id)` holds.
pub open spec fn pda_result_matches(
    r: Option<(Address, u8)>,
    seeds: Seq<Seq<u8>>,
    program_id: Seq<u8>,
) -> bool {
    match r {
        Some(p) => pda_of(seeds, program_id) == Some((p.0@, p.1)) && p.0.wf(),
        None => pda_of(seeds, program_id) is None,
    }
}

/// The treasury seed prefix as bytes.
pub fn treasury_seed_prefix_bytes() -> (r: Vec<u8>)
    ensures
        r@ == treasury_seed_prefix(),
{
    let mut r: Vec<u8> = Vec::new();
    r.push(118);
    r.push(101);
    r.push(115);
    r.push(116);
    r.push(105);
    r.push(110);
    r.push(103);
    r.push(95);
    r.push(116);
    r.push(114);
    r.push(101);
    r.push(97);
    r.push(115);
    r.push(117);
    r.push(114);
    r.push(101);
    proof {
        assert(r@ =~= treasury_seed_prefix());
    }
    r
}

/// Relies on `Pubkey::try_find_program_address` (anchor_lang's re-export of
/// the ledger host's address type): it finds the canonical program-derived
/// address and bump seed by a hash of the seeds and the program identity
/// alone, returns `None` when no bump seed fits or the seeds break the
/// host's limits, and every address it returns is 32 bytes.
#[verifier::external_body]
pub(crate) fn try_find_pda(seeds: &Vec<Vec<u8>>, program_id: &Address) -> (r: Option<
    (Address, u8),
>)
    requires
        program_id.wf(),
    ensures
        r is Some <==> pda_of(seeds@.map_values(|s: Vec<u8>| s@), program_id@) is Some,
        r matches Some(p) ==> pda_of(seeds@.map_values(|s: Vec<u8>| s@), program_id@) == Some(
            (p.0@, p.1),
        ) && p.0.wf(),
{
    let mut pid_bytes = [0u8; 32];
    pid_bytes.copy_from_slice(program_id.as_bytes().as_slice());
    let pid = anchor_lang::prelude::Pubkey::new_from_array(pid_bytes);
    let seed_refs: Vec<&[u8]> = seeds.iter().map(|s| s.as_slice()).collect();
    anchor_lang::prelude::Pubkey::try_find_program_address(&seed_refs, &pid)
        .map(|(a, b)| (Address::from_bytes(a.to_bytes().to_vec()).unwrap(), b))
}

} // verus!
