use action_tape::{Arena, Fault, HEAP_SIZE};

#[test]
fn empty_arena_is_unregistered_and_holds_nothing() {
    let arena = Arena::empty();
    assert!(!arena.is_initialized());
    assert_eq!(arena.base(), 0);
    assert_eq!(arena.capacity(), 0);
    assert_eq!(arena.used(), 0);
    assert_eq!(arena.free(), 0);
}

#[test]
fn init_registers_the_region_and_hands_out_nothing() {
    let mut arena = Arena::empty();
    arena.init(0x2000_0000, HEAP_SIZE);
    assert!(arena.is_initialized());
    assert_eq!(arena.base(), 0x2000_0000);
    assert_eq!(arena.capacity(), 1024);
    assert_eq!(arena.used(), 0);
    assert_eq!(arena.free(), 1024);
}

#[test]
fn allocate_charges_exactly_the_bytes_asked_for() {
    let mut arena = Arena::empty();
    arena.init(64, 100);
    assert_eq!(arena.allocate(30), Ok(()));
    assert_eq!(arena.used(), 30);
    assert_eq!(arena.free(), 70);
    assert_eq!(arena.allocate(0), Ok(()));
    assert_eq!(arena.used(), 30);
    assert_eq!(arena.allocate(70), Ok(()));
    assert_eq!(arena.used(), 100);
    assert_eq!(arena.free(), 0);
}

#[test]
fn allocate_beyond_what_remains_is_refused_and_changes_nothing() {
    let mut arena = Arena::empty();
    arena.init(64, 100);
    assert_eq!(arena.allocate(60), Ok(()));
    assert_eq!(arena.allocate(41), Err(Fault::AllocatorExhausted));
    assert_eq!(arena.used(), 60);
    assert_eq!(arena.free(), 40);
    assert_eq!(arena.capacity(), 100);
    assert_eq!(arena.base(), 64);
    assert!(arena.is_initialized());
    assert_eq!(arena.allocate(usize::MAX), Err(Fault::AllocatorExhausted));
    assert_eq!(arena.allocate(40), Ok(()));
}

#[test]
fn region_of_no_bytes_refuses_every_request_but_the_empty_one() {
    let mut arena = Arena::empty();
    arena.init(0x1000, 0);
    assert!(arena.is_initialized());
    assert_eq!(arena.allocate(1), Err(Fault::AllocatorExhausted));
    assert_eq!(arena.allocate(0), Ok(()));
    assert_eq!(arena.used(), 0);
}

#[test]
fn registration_survives_every_allocation() {
    let mut arena = Arena::empty();
    arena.init(8, 16);
    for _ in 0..20 {
        let _ = arena.allocate(1);
        assert!(arena.is_initialized());
        assert_eq!(arena.base(), 8);
        assert_eq!(arena.capacity(), 16);
        assert_eq!(arena.used() + arena.free(), 16);
    }
    assert_eq!(arena.used(), 16);
}
