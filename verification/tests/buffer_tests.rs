use auctioneer::buffer::Buffer;

fn contents(buffer: &Buffer<u32>) -> Vec<u32> {
    let mut items = Vec::new();
    let mut i = 0;
    while i < buffer.len() {
        items.push(*buffer.get(i));
        i += 1;
    }
    items
}

#[test]
fn new_buffer_is_empty() {
    let buffer: Buffer<u32> = Buffer::new(4);
    assert_eq!(buffer.len(), 0);
    assert_eq!(buffer.limit(), 4);
}

#[test]
fn pushes_below_capacity_are_all_kept() {
    let mut buffer: Buffer<u32> = Buffer::new(4);
    buffer.push(1);
    buffer.push(2);
    buffer.push(3);
    assert_eq!(contents(&buffer), vec![1, 2, 3]);
}

#[test]
fn fifth_push_evicts_the_oldest() {
    let mut buffer: Buffer<u32> = Buffer::new(4);
    for item in 1..=5 {
        buffer.push(item);
        assert!(buffer.len() <= 4);
    }
    assert_eq!(contents(&buffer), vec![2, 3, 4, 5]);
}

#[test]
fn many_pushes_keep_the_latest_in_order() {
    let mut buffer: Buffer<u32> = Buffer::new(3);
    for item in 0..100 {
        buffer.push(item);
    }
    assert_eq!(contents(&buffer), vec![97, 98, 99]);
}

#[test]
fn capacity_one_keeps_the_last() {
    let mut buffer: Buffer<u32> = Buffer::new(1);
    buffer.push(7);
    buffer.push(8);
    assert_eq!(contents(&buffer), vec![8]);
}

#[test]
fn capacity_zero_never_evicts() {
    let mut buffer: Buffer<u32> = Buffer::new(0);
    buffer.push(7);
    buffer.push(8);
    buffer.push(9);
    assert_eq!(contents(&buffer), vec![7, 8, 9]);
}
