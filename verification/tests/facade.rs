//! Behaviour of the global slot: binding, delegation, release, rebinding,
//! orphaned guards, and the OS-entropy passthrough.

use rand_facade::GlobalRng;
use rand_facade::Rng;
use rand_facade::SplitMix64;
use rand_facade::Strategy;

#[test]
#[should_panic]
fn drop_guard() {
    let mut slot = GlobalRng::<SplitMix64>::get();
    let rng = SplitMix64::from_seed(1);

    let rng_guard = slot.set(rng);

    slot.release(rng_guard);

    let _val: u32 = slot.next_u32();
}

#[test]
fn delegation_matches_direct() {
    let mut direct = SplitMix64::from_seed(42);
    let mut slot = GlobalRng::<SplitMix64>::get();
    let guard = slot.set(SplitMix64::from_seed(42));

    assert_eq!(slot.next_u32(), direct.next_u32());
    assert_eq!(slot.next_u64(), direct.next_u64());

    let mut through_slot: Vec<u8> = vec![0u8; 16];
    let mut direct_buf: Vec<u8> = vec![0u8; 16];
    slot.fill_bytes(&mut through_slot);
    direct.fill_bytes(&mut direct_buf);
    assert_eq!(through_slot.len(), 16);
    assert_eq!(through_slot, direct_buf);

    let mut through_slot2: Vec<u8> = vec![0u8; 8];
    let mut direct_buf2: Vec<u8> = vec![0u8; 8];
    assert!(slot.try_fill_bytes(&mut through_slot2).is_ok());
    assert!(direct.try_fill_bytes(&mut direct_buf2).is_ok());
    assert_eq!(through_slot2, direct_buf2);

    slot.release(guard);
}

#[test]
fn release_clears_binding() {
    let mut slot = GlobalRng::<SplitMix64>::get();
    assert!(!slot.is_bound());
    let guard = slot.set(SplitMix64::from_seed(9));
    assert!(slot.is_bound());
    let _first: u32 = slot.next_u32();
    slot.release(guard);
    assert!(!slot.is_bound());
}

#[test]
fn rebind_uses_second_generator() {
    let mut slot = GlobalRng::<SplitMix64>::get();

    let first_guard = slot.set(SplitMix64::from_seed(5));
    let _warmup: u32 = slot.next_u32();
    let _warmup2: u64 = slot.next_u64();
    slot.release(first_guard);

    let second_guard = slot.set(SplitMix64::from_seed(9));
    let mut second_direct = SplitMix64::from_seed(9);
    assert_eq!(slot.next_u32(), second_direct.next_u32());
    assert_eq!(slot.next_u64(), second_direct.next_u64());
    slot.release(second_guard);
}

#[test]
fn orphaned_guard_is_inert() {
    let mut slot = GlobalRng::<SplitMix64>::get();

    let first_guard = slot.set(SplitMix64::from_seed(11));
    let second_guard = slot.set(SplitMix64::from_seed(13));
    let mut second_direct = SplitMix64::from_seed(13);
    assert_eq!(slot.next_u32(), second_direct.next_u32());

    // The first binding was replaced; releasing its guard changes nothing.
    slot.release(first_guard);
    assert!(slot.is_bound());
    assert_eq!(slot.next_u32(), second_direct.next_u32());

    // The current guard still clears the slot.
    slot.release(second_guard);
    assert!(!slot.is_bound());
}

#[test]
fn same_seed_same_first_word() {
    let mut slot = GlobalRng::<SplitMix64>::get();

    let guard = slot.set(SplitMix64::from_seed(77));
    let value_a: u32 = slot.next_u32();
    slot.release(guard);

    let guard2 = slot.set(SplitMix64::from_seed(77));
    let value_b: u32 = slot.next_u32();
    slot.release(guard2);

    assert_eq!(value_a, value_b);
}

#[test]
fn splitmix_known_values() {
    let mut g = SplitMix64::from_seed(0);
    assert_eq!(g.next_u64(), 0xE220_A839_7B1D_CDAF);

    let mut g32 = SplitMix64::from_seed(0);
    assert_eq!(g32.next_u32(), 0x7B1D_CDAF);

    let mut g1 = SplitMix64::from_seed(1);
    assert_eq!(g1.next_u64(), 0x910A_2DEC_8902_5CC1);

    let mut buf: Vec<u8> = vec![0u8; 4];
    let mut g3 = SplitMix64::from_seed(3);
    g3.fill_bytes(&mut buf);
    assert_eq!(buf, vec![237u8, 137u8, 1u8, 207u8]);
}

#[test]
fn strategy_and_bindability() {
    let host = GlobalRng::<SplitMix64>::get();
    assert_eq!(host.strategy(), Strategy::HostMutex);
    assert!(host.can_bind());

    let os = GlobalRng::<SplitMix64>::with_strategy(Strategy::OsEntropy);
    assert_eq!(os.strategy(), Strategy::OsEntropy);
    assert!(!os.can_bind());

    let cs = GlobalRng::<SplitMix64>::with_strategy(Strategy::CriticalSection);
    assert_eq!(cs.strategy(), Strategy::CriticalSection);
    assert!(cs.can_bind());
}

#[test]
fn os_entropy_passthrough() {
    let mut slot = GlobalRng::<SplitMix64>::with_strategy(Strategy::OsEntropy);
    assert!(!slot.is_bound());

    let _word: u32 = slot.next_u32();
    let _wide: u64 = slot.next_u64();

    let mut buf: Vec<u8> = vec![0u8; 32];
    slot.fill_bytes(&mut buf);
    assert_eq!(buf.len(), 32);
    // The platform source overwrote the buffer; an untouched buffer would
    // still be all zero.
    assert!(buf.iter().any(|b| *b != 0u8));

    let mut buf2: Vec<u8> = vec![0u8; 16];
    assert!(slot.try_fill_bytes(&mut buf2).is_ok());
    assert_eq!(buf2.len(), 16);

    // No binding ever exists under this strategy.
    assert!(!slot.is_bound());
}
