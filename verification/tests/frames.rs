use boids::buffers::{binding_order, BindingOrder, BufferPair};
use boids::dispatch::{workgroups_for, N_BOIDS, WORKGROUPS};
use boids::frame::{read_index, write_index, FrameCounter};

#[test]
fn read_index_is_the_parity() {
    assert_eq!(read_index(0), 0);
    assert_eq!(read_index(1), 1);
    assert_eq!(read_index(2), 0);
    assert_eq!(read_index(7), 1);
    assert_eq!(read_index(usize::MAX), 1);
}

#[test]
fn write_index_is_the_other_slot() {
    assert_eq!(write_index(0), 1);
    assert_eq!(write_index(1), 0);
    assert_eq!(write_index(2), 1);
    assert_eq!(write_index(usize::MAX), 0);
}

#[test]
fn slots_alternate_over_many_frames() {
    for frame in 0..1000usize {
        assert_ne!(read_index(frame), write_index(frame));
        assert_eq!(read_index(frame + 1), write_index(frame));
        assert_eq!(write_index(frame + 1), read_index(frame));
    }
}

#[test]
fn counter_starts_at_zero_and_counts_up() {
    let mut counter = FrameCounter::new();
    assert_eq!(counter.get(), 0);
    counter.advance();
    assert_eq!(counter.get(), 1);
    counter.advance();
    counter.advance();
    assert_eq!(counter.get(), 3);
}

#[test]
fn advancing_swaps_the_roles() {
    let mut counter = FrameCounter::new();
    for _ in 0..50 {
        let before = counter.get();
        counter.advance();
        assert_eq!(read_index(counter.get()), write_index(before));
        assert_eq!(write_index(counter.get()), read_index(before));
    }
}

#[test]
fn counter_wraps_round_to_zero() {
    let mut counter = FrameCounter::at(usize::MAX - 1);
    counter.advance();
    assert_eq!(counter.get(), usize::MAX);
    counter.advance();
    assert_eq!(counter.get(), 0);
    counter.advance();
    assert_eq!(counter.get(), 1);
}

#[test]
fn roles_swap_across_the_wrap() {
    let mut counter = FrameCounter::at(usize::MAX - 2);
    for _ in 0..6 {
        let before = counter.get();
        counter.advance();
        assert_ne!(read_index(counter.get()), read_index(before));
        assert_eq!(read_index(counter.get()), write_index(before));
        assert_eq!(write_index(counter.get()), read_index(before));
    }
    assert_eq!(counter.get(), 3);
}

#[test]
fn binding_orders_are_each_other_reversed() {
    assert_eq!(binding_order(0), BindingOrder { input: 0, output: 1 });
    assert_eq!(binding_order(1), BindingOrder { input: 1, output: 0 });
}

#[test]
fn selected_binding_order_reads_the_source() {
    for frame in 0..100usize {
        let bindings = binding_order(read_index(frame));
        assert_eq!(bindings.input, read_index(frame));
        assert_eq!(bindings.output, write_index(frame));
    }
}

#[test]
fn pair_hands_out_source_and_destination() {
    let pair = BufferPair::new("first", "second");
    assert_eq!(*pair.slot(0), "first");
    assert_eq!(*pair.slot(1), "second");
    assert_eq!(*pair.source(0), "first");
    assert_eq!(*pair.destination(0), "second");
    assert_eq!(*pair.source(1), "second");
    assert_eq!(*pair.destination(1), "first");
    assert_eq!(*pair.source(10), "first");
    assert_eq!(*pair.destination(11), "first");
}

#[test]
fn replacing_the_destination_leaves_the_source() {
    let mut pair = BufferPair::new(vec![1u32, 2], vec![3u32, 4]);
    let previous = pair.replace_destination(0, vec![5, 6]);
    assert_eq!(previous, vec![3, 4]);
    assert_eq!(*pair.source(0), vec![1, 2]);
    assert_eq!(*pair.destination(0), vec![5, 6]);
    let previous = pair.replace_destination(1, vec![7, 8]);
    assert_eq!(previous, vec![1, 2]);
    assert_eq!(*pair.slot(0), vec![7, 8]);
    assert_eq!(*pair.slot(1), vec![5, 6]);
}

#[test]
fn workgroups_round_up() {
    assert_eq!(workgroups_for(10000, 64), 157);
    assert_eq!(workgroups_for(10000, 10), 1000);
    assert_eq!(workgroups_for(10000, 10000), 1);
    assert_eq!(workgroups_for(10001, 10000), 2);
    assert_eq!(workgroups_for(0, 64), 0);
    assert_eq!(workgroups_for(1, 64), 1);
    assert_eq!(workgroups_for(64, 64), 1);
    assert_eq!(workgroups_for(65, 64), 2);
    assert_eq!(workgroups_for(u32::MAX, 1), u32::MAX);
    assert_eq!(workgroups_for(u32::MAX, 2), 2147483648);
    assert_eq!(workgroups_for(u32::MAX, u32::MAX), 1);
}

#[test]
fn dispatched_grid_covers_the_flock() {
    assert_eq!(N_BOIDS, 10000);
    assert_eq!(WORKGROUPS, 1024);
    for group_size in [10u32, 16, 32, 64, 256] {
        assert!(workgroups_for(N_BOIDS as u32, group_size) <= WORKGROUPS);
    }
    assert!(workgroups_for(N_BOIDS as u32, 9) > WORKGROUPS);
}
