use tokenvesting::address::Address;
use tokenvesting::ledger::Ledger;
use tokenvesting::provision::CreateVestingAccount;
use tokenvesting::provision::ProvisionError;
use tokenvesting::provision::Provisioner;
use tokenvesting::record::AccountData;
use tokenvesting::record::MAX_COMPANY_NAME_LEN;
use tokenvesting::record::VESTING_ACCOUNT_SPACE;

fn addr(tag: u8) -> Address {
    Address::from_bytes(vec![tag; 32]).unwrap()
}

fn provisioner() -> Provisioner {
    Provisioner::new(addr(7))
}

/// A ledger charging 10 for the record and 20 for the treasury, with mint 2
/// registered and requester 1 holding 100.
fn funded_ledger() -> Ledger {
    let mut ledger = Ledger::new(10, 20);
    ledger.register_mint(&addr(2));
    ledger.set_balance(&addr(1), 100);
    ledger
}

fn request(name: &[u8]) -> CreateVestingAccount {
    CreateVestingAccount {
        requester: addr(1),
        mint: addr(2),
        company_name: name.to_vec(),
    }
}

#[test]
fn derivation_is_deterministic() {
    let p = provisioner();
    let name = b"acme".to_vec();
    let (a1, b1) = p.derive_vesting_address(&name).unwrap();
    let (a2, b2) = p.derive_vesting_address(&name).unwrap();
    assert_eq!(a1.as_bytes(), a2.as_bytes());
    assert_eq!(b1, b2);
    let (t1, tb1) = p.derive_treasury_address(&name).unwrap();
    let (t2, tb2) = p.derive_treasury_address(&name).unwrap();
    assert_eq!(t1.as_bytes(), t2.as_bytes());
    assert_eq!(tb1, tb2);
}

#[test]
fn derivation_matches_host_library() {
    let p = provisioner();
    let name = b"acme".to_vec();
    let pid = anchor_lang::prelude::Pubkey::new_from_array([7u8; 32]);

    let (va, vb) = p.derive_vesting_address(&name).unwrap();
    let seeds: [&[u8]; 1] = [b"acme"];
    let (pk, bump) = anchor_lang::prelude::Pubkey::try_find_program_address(&seeds, &pid).unwrap();
    assert_eq!(*va.as_bytes(), pk.to_bytes().to_vec());
    assert_eq!(vb, bump);

    let (ta, tb) = p.derive_treasury_address(&name).unwrap();
    let tseeds: [&[u8]; 2] = [b"vesting_treasure", b"acme"];
    let (tpk, tbump) =
        anchor_lang::prelude::Pubkey::try_find_program_address(&tseeds, &pid).unwrap();
    assert_eq!(*ta.as_bytes(), tpk.to_bytes().to_vec());
    assert_eq!(tb, tbump);
}

#[test]
fn namespace_separation() {
    let p = provisioner();
    let name_a = b"acme".to_vec();
    let name_b = b"bravo".to_vec();
    let (va, _) = p.derive_vesting_address(&name_a).unwrap();
    let (ta, _) = p.derive_treasury_address(&name_a).unwrap();
    let (vb, _) = p.derive_vesting_address(&name_b).unwrap();
    let (tb, _) = p.derive_treasury_address(&name_b).unwrap();
    let all = [&va, &ta, &vb, &tb];
    for i in 0..all.len() {
        for j in 0..all.len() {
            if i != j {
                assert!(!all[i].eq_address(all[j]));
            }
        }
    }
}

#[test]
fn create_records_fields() {
    let p = provisioner();
    let mut ledger = funded_ledger();
    let req = request(b"Acme");
    let (va, vbump) = p.derive_vesting_address(&req.company_name).unwrap();
    let (ta, tbump) = p.derive_treasury_address(&req.company_name).unwrap();

    let record = p.create_vesting_account(&mut ledger, &req).unwrap();
    assert_eq!(record.owner.as_bytes(), addr(1).as_bytes());
    assert_eq!(record.mint.as_bytes(), addr(2).as_bytes());
    assert_eq!(record.treasury_account.as_bytes(), ta.as_bytes());
    assert_eq!(record.company_name, b"Acme".to_vec());
    assert_eq!(record.bump, vbump);
    assert_eq!(record.treasury_bump, tbump);

    match ledger.get_account(&va) {
        Some(AccountData::Vesting(v)) => {
            assert_eq!(v.owner.as_bytes(), addr(1).as_bytes());
            assert_eq!(v.mint.as_bytes(), addr(2).as_bytes());
            assert_eq!(v.treasury_account.as_bytes(), ta.as_bytes());
            assert_eq!(v.company_name, b"Acme".to_vec());
            assert_eq!(v.bump, vbump);
            assert_eq!(v.treasury_bump, tbump);
        }
        _ => panic!("vesting address not allocated as a vesting record"),
    }
    match ledger.get_account(&ta) {
        Some(AccountData::Treasury(t)) => {
            assert_eq!(t.mint.as_bytes(), addr(2).as_bytes());
            assert_eq!(t.authority.as_bytes(), addr(1).as_bytes());
        }
        _ => panic!("treasury address not allocated as a token account"),
    }
    assert_eq!(ledger.balance_of(&addr(1)), 70);
}

#[test]
fn duplicate_name_fails_and_first_record_stands() {
    let p = provisioner();
    let mut ledger = funded_ledger();
    ledger.register_mint(&addr(5));
    ledger.set_balance(&addr(4), 100);

    let first = request(b"Acme");
    p.create_vesting_account(&mut ledger, &first).unwrap();
    let (va, _) = p.derive_vesting_address(&first.company_name).unwrap();

    // Same name, different requester and different mint.
    let second = CreateVestingAccount {
        requester: addr(4),
        mint: addr(5),
        company_name: b"Acme".to_vec(),
    };
    let r = p.create_vesting_account(&mut ledger, &second);
    assert!(matches!(r, Err(ProvisionError::DuplicateCompanyName)));
    assert_eq!(ledger.balance_of(&addr(4)), 100);

    // A later creation under another name leaves the first record untouched.
    let other = CreateVestingAccount {
        requester: addr(4),
        mint: addr(5),
        company_name: b"Bravo".to_vec(),
    };
    p.create_vesting_account(&mut ledger, &other).unwrap();
    match ledger.get_account(&va) {
        Some(AccountData::Vesting(v)) => {
            assert_eq!(v.owner.as_bytes(), addr(1).as_bytes());
            assert_eq!(v.company_name, b"Acme".to_vec());
        }
        _ => panic!("first record gone"),
    }
}

#[test]
fn name_length_boundary() {
    let p = provisioner();
    let mut ledger = funded_ledger();

    let too_long = request(&[b'x'; 51]);
    let r = p.create_vesting_account(&mut ledger, &too_long);
    assert!(matches!(r, Err(ProvisionError::NameTooLong)));
    assert_eq!(ledger.balance_of(&addr(1)), 100);

    // Exactly at the bound the name is accepted as a name; on this host the
    // derivation itself then refuses seeds over its own 32-byte seed cap.
    let at_bound = request(&[b'x'; MAX_COMPANY_NAME_LEN]);
    let r = p.create_vesting_account(&mut ledger, &at_bound);
    assert!(!matches!(r, Err(ProvisionError::NameTooLong)));
    assert!(matches!(r, Err(ProvisionError::DerivationFailure)));

    // The longest name the host can also derive from goes through whole.
    let longest_derivable = request(&[b'x'; 32]);
    let record = p.create_vesting_account(&mut ledger, &longest_derivable).unwrap();
    assert_eq!(record.company_name.len(), 32);
}

#[test]
fn derivation_failure_reported() {
    let p = provisioner();
    let mut ledger = funded_ledger();
    // 40 bytes: within the record bound, over the host's 32-byte seed cap.
    let req = request(&[b'y'; 40]);
    let r = p.create_vesting_account(&mut ledger, &req);
    assert!(matches!(r, Err(ProvisionError::DerivationFailure)));
    assert_eq!(ledger.balance_of(&addr(1)), 100);
}

#[test]
fn insufficient_funding_leaves_no_trace() {
    let p = provisioner();
    let mut ledger = Ledger::new(10, 20);
    ledger.register_mint(&addr(2));
    ledger.set_balance(&addr(1), 29);

    let req = request(b"Acme");
    let (va, _) = p.derive_vesting_address(&req.company_name).unwrap();
    let (ta, _) = p.derive_treasury_address(&req.company_name).unwrap();

    let r = p.create_vesting_account(&mut ledger, &req);
    assert!(matches!(r, Err(ProvisionError::InsufficientFunding)));
    assert!(ledger.get_account(&va).is_none());
    assert!(ledger.get_account(&ta).is_none());
    assert_eq!(ledger.balance_of(&addr(1)), 29);

    // One unit more covers both allocations exactly.
    ledger.set_balance(&addr(1), 30);
    let r = p.create_vesting_account(&mut ledger, &req);
    assert!(r.is_ok());
    assert_eq!(ledger.balance_of(&addr(1)), 0);
}

#[test]
fn invalid_mint_rejected() {
    let p = provisioner();
    let mut ledger = Ledger::new(10, 20);
    ledger.set_balance(&addr(1), 100);
    let req = request(b"Acme");
    let r = p.create_vesting_account(&mut ledger, &req);
    assert!(matches!(r, Err(ProvisionError::InvalidMint)));
}

#[test]
fn record_space_layout() {
    // 8-byte discriminator, three 32-byte addresses, a 4-byte length prefix
    // with up to 50 bytes of name, and the two bump seeds.
    assert_eq!(VESTING_ACCOUNT_SPACE, 160);
}
