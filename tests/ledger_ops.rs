use rust_bag::ledger::{Bag, Condition, Ledger, LedgerError};

fn ledger_with_owners(ids: &[u32]) -> Ledger {
    let mut l = Ledger::new();
    for id in ids {
        assert_eq!(l.create_owner(*id), Ok(()));
    }
    l
}

fn assert_consistent(l: &Ledger, owners: &[u32], bags: &[u32]) {
    for b in bags {
        let bag = l.get_bag(*b).unwrap();
        for o in owners {
            let listed = l.get_owner(*o).unwrap().bags.iter().filter(|x| **x == *b).count();
            if *o == bag.owner_id {
                assert_eq!(listed, 1);
            } else {
                assert_eq!(listed, 0);
            }
        }
    }
}

#[test]
fn create_owner_twice_fails() {
    let mut l = ledger_with_owners(&[7]);
    assert_eq!(l.create_owner(7), Err(LedgerError::AlreadyExists));
    let o = l.get_owner(7).unwrap();
    assert_eq!(o.id, 7);
    assert!(o.bags.is_empty());
}

#[test]
fn create_bag_without_owner_fails() {
    let mut l = ledger_with_owners(&[1]);
    assert_eq!(l.create_bag(10, 2, 5, Condition::New), Err(LedgerError::NotFound));
    assert_eq!(l.get_bag(10), Err(LedgerError::NotFound));
    assert!(l.get_owner(1).unwrap().bags.is_empty());
    assert_eq!(l.get_owner(2).err(), Some(LedgerError::NotFound));
}

#[test]
fn create_bag_twice_fails() {
    let mut l = ledger_with_owners(&[1, 2]);
    assert_eq!(l.create_bag(10, 1, 5, Condition::Good), Ok(()));
    assert_eq!(l.create_bag(10, 2, 6, Condition::Bad), Err(LedgerError::AlreadyExists));
    assert_eq!(l.get_bag(10).unwrap().owner_id, 1);
    assert!(l.get_owner(2).unwrap().bags.is_empty());
}

#[test]
fn create_bag_then_read() {
    let mut l = ledger_with_owners(&[3]);
    assert_eq!(l.create_bag(9, 3, 10, Condition::New), Ok(()));
    assert_eq!(
        l.get_bag(9),
        Ok(Bag { id: 9, price: 10, owner_id: 3, num_transfers: 0, condition: Condition::New })
    );
    assert_eq!(l.get_owner(3).unwrap().bags, vec![9]);
}

#[test]
fn bags_listed_in_order_acquired() {
    let mut l = ledger_with_owners(&[1]);
    for b in [5, 2, 8] {
        assert_eq!(l.create_bag(b, 1, 1, Condition::Good), Ok(()));
    }
    assert_eq!(l.get_owner(1).unwrap().bags, vec![5, 2, 8]);
}

#[test]
fn transfer_moves_bag() {
    let mut l = ledger_with_owners(&[1, 2]);
    l.create_bag(4, 1, 10, Condition::Bad).unwrap();
    l.create_bag(5, 1, 11, Condition::Bad).unwrap();
    assert_eq!(l.transfer_bag(4, 2), Ok(()));
    assert_eq!(l.get_bag(4).unwrap().owner_id, 2);
    assert_eq!(l.get_owner(1).unwrap().bags, vec![5]);
    assert_eq!(l.get_owner(2).unwrap().bags, vec![4]);
    assert_eq!(l.get_bag(4).unwrap().num_transfers, 0);
    assert_consistent(&l, &[1, 2], &[4, 5]);
}

#[test]
fn transfer_to_missing_owner_fails() {
    let mut l = ledger_with_owners(&[1]);
    l.create_bag(4, 1, 10, Condition::New).unwrap();
    assert_eq!(l.transfer_bag(4, 2), Err(LedgerError::NotFound));
    assert_eq!(l.get_bag(4).unwrap().owner_id, 1);
    assert_eq!(l.get_owner(1).unwrap().bags, vec![4]);
}

#[test]
fn transfer_missing_bag_fails() {
    let mut l = ledger_with_owners(&[1, 2]);
    assert_eq!(l.transfer_bag(4, 2), Err(LedgerError::NotFound));
    assert!(l.get_owner(2).unwrap().bags.is_empty());
}

#[test]
fn transfer_to_same_owner_moves_to_end() {
    let mut l = ledger_with_owners(&[1]);
    l.create_bag(4, 1, 10, Condition::New).unwrap();
    l.create_bag(5, 1, 10, Condition::New).unwrap();
    assert_eq!(l.transfer_bag(4, 1), Ok(()));
    assert_eq!(l.get_owner(1).unwrap().bags, vec![5, 4]);
    assert_consistent(&l, &[1], &[4, 5]);
}

#[test]
fn update_price_changes_only_price() {
    let mut l = ledger_with_owners(&[1]);
    l.create_bag(4, 1, 10, Condition::Destroyed).unwrap();
    assert_eq!(l.update_bag_price(4, 99), Ok(()));
    assert_eq!(
        l.get_bag(4),
        Ok(Bag { id: 4, price: 99, owner_id: 1, num_transfers: 0, condition: Condition::Destroyed })
    );
    assert_eq!(l.get_owner(1).unwrap().bags, vec![4]);
}

#[test]
fn update_price_of_missing_bag_fails() {
    let mut l = ledger_with_owners(&[1]);
    assert_eq!(l.update_bag_price(4, 99), Err(LedgerError::NotFound));
    assert_eq!(l.get_bag(4), Err(LedgerError::NotFound));
}

#[test]
fn largest_ids_and_price() {
    let mut l = ledger_with_owners(&[u32::MAX, 0]);
    assert_eq!(l.create_bag(u32::MAX, u32::MAX, u32::MAX, Condition::Good), Ok(()));
    assert_eq!(l.transfer_bag(u32::MAX, 0), Ok(()));
    let b = l.get_bag(u32::MAX).unwrap();
    assert_eq!((b.price, b.owner_id), (u32::MAX, 0));
}

#[test]
fn invariant_holds_over_interleaved_operations() {
    let owners = [1, 2, 3];
    let bags: Vec<u32> = (10..20).collect();
    let mut l = ledger_with_owners(&owners);
    for (k, b) in bags.iter().enumerate() {
        l.create_bag(*b, owners[k % 3], k as u32, Condition::New).unwrap();
        assert_consistent(&l, &owners, &bags[..=k]);
    }
    let mut seed: u32 = 12345;
    for _ in 0..200 {
        seed = seed.wrapping_mul(1103515245).wrapping_add(12345);
        let b = bags[(seed >> 8) as usize % bags.len()];
        let o = (seed >> 16) % 5;
        let expect_ok = o >= 1 && o <= 3;
        assert_eq!(l.transfer_bag(b, o).is_ok(), expect_ok);
        if seed % 7 == 0 {
            l.update_bag_price(b, seed).unwrap();
        }
        assert_consistent(&l, &owners, &bags);
    }
}
