use kitties::breeding::combine_dna;
use kitties::counter::IdentityCounter;
use kitties::entropy::{encode_seed_input, random_hash};
use kitties::pallet::{complete_trade, create_kitty, Error, Event, Kitty, Pallet, Payment};

const SEED: [u8; 32] = [7u8; 32];

#[test]
fn test_create_kitty_success() {
    let mut p = Pallet::new();
    assert!(p.create_kitty(1, SEED, None).is_ok());
}

#[test]
fn test_transfer_kitty_success() {
    let mut p = Pallet::new();
    let _ = p.create_kitty(1, SEED, None);
    let kittyid = p.kitties_count() - 1;

    assert_eq!(p.transfer_kitty(1, 2, kittyid), Ok(()));
    assert_eq!(p.owner(kittyid), Some(2));
}

#[test]
fn test_transfer_kitty_failed_dueto_not_kitty_not_exist() {
    let mut p = Pallet::new();
    assert_eq!(p.transfer_kitty(10, 2, u64::MAX), Err(Error::KittyNotExist));
    assert_eq!(p.kitties_count(), 0);
    assert!(p.events().is_empty());
}

#[test]
fn test_transfer_kitty_failed_dueto_not_kitty_owner() {
    let mut p = Pallet::new();
    let _ = p.create_kitty(1, SEED, None);
    let next_kittyid = p.kitties_count();

    assert_eq!(
        p.transfer_kitty(10, 2, next_kittyid - 1),
        Err(Error::NotKittyOwner)
    );
    assert_eq!(p.owner(next_kittyid - 1), Some(1));
}

#[test]
fn test_breed_kitty_success() {
    let mut p = Pallet::new();
    let parent1 = create_kitty(&mut p, 1, SEED);
    let parent2 = create_kitty(&mut p, 1, [9u8; 32]);
    assert!(p.breed_kitty(1, parent1, parent2, SEED, None).is_ok());
}

#[test]
fn test_breed_kitty_failed_dueto_kitty_not_exist() {
    let mut p = Pallet::new();
    assert_eq!(p.breed_kitty(1, 1, 2, SEED, None), Err(Error::KittyNotExist));
    assert_eq!(p.kitties_count(), 0);
}

#[test]
fn test_breed_kitty_failed_dueto_kitty_same_parent() {
    let mut p = Pallet::new();
    let _parent1 = create_kitty(&mut p, 1, SEED);
    assert_eq!(p.breed_kitty(1, 0, 0, SEED, None), Err(Error::SameParentIndex));
    assert_eq!(p.kitties_count(), 1);
}

#[test]
fn creates_increasing_indices_for_one_caller() {
    let mut p = Pallet::new();
    assert_eq!(p.create_kitty(1, SEED, None), Ok(0));
    assert_eq!(p.owner(0), Some(1));
    assert_eq!(p.create_kitty(1, SEED, Some(1)), Ok(1));
    assert_eq!(p.owner(1), Some(1));
    assert_eq!(
        p.events().clone(),
        vec![Event::KittyCreated(1, 0), Event::KittyCreated(1, 1)]
    );
}

#[test]
fn created_kitty_gets_hashed_genome() {
    let mut p = Pallet::new();
    let id = p.create_kitty(4, SEED, Some(3)).unwrap();
    assert_eq!(p.kitty(id), Some(Kitty(random_hash(&SEED, 4, Some(3)))));
}

#[test]
fn combine_takes_bits_by_entropy() {
    let mut e = [0x00u8; 16];
    e[0] = 0xFF;
    let a = [0x0Fu8; 16];
    let b = [0xF0u8; 16];
    let child = combine_dna(&e, &a, &b);
    assert_eq!(child[0], 0x0F);
    for i in 1..16 {
        assert_eq!(child[i], 0xF0);
    }
}

#[test]
fn combine_mixes_within_a_byte() {
    let e = [0b1010_1010u8; 16];
    let a = [0b1100_1100u8; 16];
    let b = [0b0011_0101u8; 16];
    let child = combine_dna(&e, &a, &b);
    assert_eq!(child, [0b1001_1101u8; 16]);
}

#[test]
fn bred_kitty_mixes_parent_genomes() {
    let mut p = Pallet::new();
    let k1 = create_kitty(&mut p, 1, SEED);
    let k2 = create_kitty(&mut p, 2, [9u8; 32]);
    let d1 = p.kitty(k1).unwrap().0;
    let d2 = p.kitty(k2).unwrap().0;
    let child = p.breed_kitty(3, k1, k2, [5u8; 32], Some(2)).unwrap();
    assert_eq!(child, 2);
    assert_eq!(p.owner(child), Some(3));
    let base = random_hash(&[5u8; 32], 3, Some(2));
    assert_eq!(p.kitty(child), Some(Kitty(combine_dna(&base, &d1, &d2))));
    assert_eq!(p.events()[2], Event::KittyBreeded(3, k1, k2, child));
    assert_eq!(
        p.generate_dna_from_2kitties(3, k1, k2, [5u8; 32], Some(2)),
        Ok(combine_dna(&base, &d1, &d2))
    );
}

#[test]
fn generate_dna_needs_both_parents() {
    let mut p = Pallet::new();
    let k1 = create_kitty(&mut p, 1, SEED);
    assert_eq!(
        p.generate_dna_from_2kitties(1, k1, 7, SEED, None),
        Err(Error::KittyNotExist)
    );
}

#[test]
fn transfer_by_non_owner_leaves_owner() {
    let mut p = Pallet::new();
    let id = create_kitty(&mut p, 1, SEED);
    assert_eq!(p.transfer_kitty(2, 3, id), Err(Error::NotKittyOwner));
    assert_eq!(p.owner(id), Some(1));
    assert_eq!(p.events().len(), 1);
}

#[test]
fn transfer_by_owner_moves_kitty_and_reports() {
    let mut p = Pallet::new();
    let id = create_kitty(&mut p, 1, SEED);
    let dna = p.kitty(id);
    assert_eq!(p.transfer_kitty(1, 3, id), Ok(()));
    assert_eq!(p.owner(id), Some(3));
    assert_eq!(p.kitty(id), dna);
    assert_eq!(p.events()[1], Event::KittyTransferred(1, 3, id));
    assert_eq!(p.transfer_kitty(1, 2, id), Err(Error::NotKittyOwner));
    assert_eq!(p.transfer_kitty(3, 3, id), Ok(()));
}

#[test]
fn breed_same_existing_parent_changes_nothing() {
    let mut p = Pallet::new();
    for _ in 0..6 {
        create_kitty(&mut p, 1, SEED);
    }
    assert_eq!(p.breed_kitty(1, 5, 5, SEED, None), Err(Error::SameParentIndex));
    assert_eq!(p.kitties_count(), 6);
    assert_eq!(p.kitty(6), None);
}

#[test]
fn allocate_at_limit_fails() {
    let mut c = IdentityCounter::starting_at(u64::MAX);
    assert_eq!(c.allocate(), Err(Error::KittyCountOverflow));
    assert_eq!(c.next_id(), u64::MAX);
    let mut d = IdentityCounter::new();
    assert_eq!(d.allocate(), Ok(0));
    assert_eq!(d.allocate(), Ok(1));
    assert_eq!(d.next_id(), 2);
}

#[test]
fn create_at_limit_fails() {
    let mut p = Pallet::with_next_index(u64::MAX);
    assert_eq!(p.create_kitty(1, SEED, None), Err(Error::KittyCountOverflow));
    assert_eq!(p.kitties_count(), u64::MAX);
    assert_eq!(p.owner(u64::MAX), None);
    assert!(p.events().is_empty());
}

#[test]
fn breed_at_limit_fails() {
    let mut p = Pallet::with_next_index(u64::MAX - 2);
    let a = create_kitty(&mut p, 1, SEED);
    let b = create_kitty(&mut p, 1, [1u8; 32]);
    assert_eq!(p.kitties_count(), u64::MAX);
    assert_eq!(p.breed_kitty(1, a, b, SEED, None), Err(Error::KittyCountOverflow));
    assert_eq!(p.kitties_count(), u64::MAX);
}

#[test]
fn owner_exists_iff_kitty_exists() {
    let mut p = Pallet::new();
    let a = create_kitty(&mut p, 1, SEED);
    let b = create_kitty(&mut p, 2, SEED);
    let _ = p.breed_kitty(3, a, b, SEED, None);
    let _ = p.transfer_kitty(1, 4, a);
    for id in 0..5u64 {
        assert_eq!(p.kitty(id).is_some(), p.owner(id).is_some());
    }
    assert!(p.kitty(2).is_some());
    assert!(p.kitty(3).is_none());
}

#[test]
fn genome_is_never_rewritten() {
    let mut p = Pallet::new();
    let a = create_kitty(&mut p, 1, SEED);
    let first = p.kitty(a);
    let b = create_kitty(&mut p, 1, [3u8; 32]);
    let _ = p.breed_kitty(1, a, b, SEED, Some(4));
    let _ = p.transfer_kitty(1, 2, a);
    let _ = p.breed_kitty(2, b, a, [8u8; 32], None);
    assert_eq!(p.kitty(a), first);
}

#[test]
fn indices_are_pairwise_distinct() {
    let mut p = Pallet::new();
    let mut ids = Vec::new();
    ids.push(create_kitty(&mut p, 1, SEED));
    ids.push(create_kitty(&mut p, 2, SEED));
    ids.push(p.breed_kitty(1, ids[0], ids[1], SEED, None).unwrap());
    ids.push(create_kitty(&mut p, 1, SEED));
    ids.push(p.breed_kitty(2, ids[2], ids[3], SEED, Some(1)).unwrap());
    for i in 0..ids.len() {
        for j in 0..ids.len() {
            if i != j {
                assert_ne!(ids[i], ids[j]);
            }
        }
    }
}

#[test]
fn buy_and_sell_yield_payments() {
    let mut p = Pallet::new();
    let id = create_kitty(&mut p, 1, SEED);
    assert_eq!(p.buy_kitty(2, id, 50), Ok(Payment { from: 2, to: 1, amount: 50 }));
    assert_eq!(p.buy_kitty(1, id, 50), Err(Error::SelfTrade));
    assert_eq!(p.buy_kitty(2, 9, 50), Err(Error::KittyNotExist));
    assert_eq!(p.sell_kitty(1, 2, id, 70), Ok(Payment { from: 2, to: 1, amount: 70 }));
    assert_eq!(p.sell_kitty(2, 3, id, 70), Err(Error::NotKittyOwner));
    assert_eq!(p.sell_kitty(1, 3, 9, 70), Err(Error::NotKittyOwner));
    assert_eq!(p.owner(id), Some(1));
}

#[test]
fn failed_payment_fails_trade() {
    assert_eq!(complete_trade(true), Ok(()));
    assert_eq!(complete_trade(false), Err(Error::PaymentFailed));
}

#[test]
fn seed_input_layout() {
    let bytes = encode_seed_input(&[2u8; 32], 0x0102_0304_0506_0708, Some(0x0A0B_0C0D));
    let mut expected = vec![2u8; 32];
    expected.extend_from_slice(&[8, 7, 6, 5, 4, 3, 2, 1, 1, 0x0D, 0x0C, 0x0B, 0x0A]);
    assert_eq!(bytes, expected);
    let none = encode_seed_input(&[2u8; 32], 1, None);
    assert_eq!(none.len(), 41);
    assert_eq!(none[32..], [1, 0, 0, 0, 0, 0, 0, 0, 0]);
}

#[test]
fn random_hash_is_blake2_128_of_seed_input() {
    assert_eq!(
        random_hash(&SEED, 1, None),
        [0xcb, 0x48, 0xe0, 0xb6, 0xd4, 0xe4, 0xd7, 0x85, 0x78, 0x0b, 0x6a, 0x9c, 0x02, 0xaa, 0x64, 0x4a]
    );
    assert_eq!(
        random_hash(&SEED, 1, Some(3)),
        [0xbe, 0xd4, 0xd9, 0x2c, 0x90, 0x66, 0x2d, 0x96, 0xd2, 0x50, 0xbc, 0xf5, 0x69, 0x80, 0xeb, 0xde]
    );
}
