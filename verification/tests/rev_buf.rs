use read_back::rev_buf::{CapacityError, RevBorrowedBuf};

#[test]
fn filled() {
    let data = vec![1u8, 2, 3];
    let buf = RevBorrowedBuf::from_filled(data);

    // assume, we filled one value
    let mut cursor = buf.unfilled();
    cursor.advance(1);
    let buf = cursor.finish();
    assert_eq!(buf.filled(), [3]);

    // assume, we filled two values
    let mut cursor = buf.unfilled();
    cursor.advance(1);
    let buf = cursor.finish();
    assert_eq!(buf.filled(), [2, 3]);
}

#[test]
fn capacity() {
    let data = vec![1u8, 2, 3];
    let buf = RevBorrowedBuf::from_filled(data);

    // assume, we filled one value
    let mut cursor = buf.unfilled();
    cursor.advance(1);

    // one value has been written to in the buffer => at most 2 values can be written next
    assert_eq!(cursor.capacity(), 2);
}

#[test]
fn append() {
    let buffer = vec![1u8, 2, 3];
    let buf = RevBorrowedBuf::from_filled(buffer);

    let data = [4u8, 5];
    let mut cursor = buf.unfilled();
    assert!(cursor.append(&data).is_ok());

    assert_eq!(cursor.written(), data.len());
    assert_eq!(cursor.init_ref(), [1, 4, 5]);
    assert_eq!(cursor.capacity(), 1);
}

#[test]
fn append_to_view_filled() {
    // Region [1,2,3], fully defined: the cursor sees the whole capacity,
    // and after append([4,5]) the view's filled region is [4,5].
    let buf = RevBorrowedBuf::from_filled(vec![1u8, 2, 3]);
    let mut cursor = buf.unfilled();
    assert_eq!(cursor.capacity(), 3);
    assert!(cursor.append(&[4, 5]).is_ok());
    let buf = cursor.finish();
    assert_eq!(buf.filled(), [4, 5]);
    assert_eq!(buf.len(), 2);
}

#[test]
fn append_over_capacity_fails() {
    // Capacity 0: appending 2 bytes fails and both boundaries are unchanged.
    let buf = RevBorrowedBuf::from_filled(Vec::new());
    let mut cursor = buf.unfilled();
    let r = cursor.append(&[4, 5]);
    assert_eq!(r.unwrap_err(), CapacityError);
    assert_eq!(cursor.written(), 0);
    assert_eq!(cursor.capacity(), 0);
    let buf = cursor.finish();
    assert_eq!(buf.len(), 0);
    assert_eq!(buf.init_len(), 0);
}

#[test]
fn append_too_long_leaves_state_unchanged() {
    let buf = RevBorrowedBuf::from_filled(vec![1u8, 2, 3]);
    let mut cursor = buf.unfilled();
    assert!(cursor.append(&[9]).is_ok());
    // only 2 bytes of space remain; a 3-byte append is rejected whole
    let r = cursor.append(&[7, 7, 7]);
    assert!(r.is_err());
    assert_eq!(cursor.written(), 1);
    assert_eq!(cursor.capacity(), 2);
    let buf = cursor.finish();
    assert_eq!(buf.filled(), [9]);
}

#[test]
fn append_empty_is_noop() {
    let buf = RevBorrowedBuf::from_filled(vec![1u8, 2, 3]);
    let mut cursor = buf.unfilled();
    assert!(cursor.append(&[]).is_ok());
    assert_eq!(cursor.written(), 0);
    assert_eq!(cursor.capacity(), 3);
    let buf = cursor.finish();
    assert_eq!(buf.len(), 0);
    assert_eq!(buf.init_len(), 3);
}

#[test]
fn round_trip_one_append() {
    let buf = RevBorrowedBuf::from_filled(vec![10u8, 20, 30, 40]);
    let mut buf = {
        let mut c = buf.unfilled();
        c.advance(4);
        c.finish()
    };
    assert_eq!(buf.filled(), [10, 20, 30, 40]);
    buf.clear();
    let mut cursor = buf.unfilled();
    assert!(cursor.append(&[10, 20, 30, 40]).is_ok());
    let buf = cursor.finish();
    assert_eq!(buf.filled(), [10, 20, 30, 40]);
}

#[test]
fn round_trip_split_appends() {
    // However the four bytes are split over the appends (tail chunk first),
    // the content comes back identical.
    for split in 0..=4usize {
        let full = [10u8, 20, 30, 40];
        let buf = RevBorrowedBuf::from_filled(full.to_vec());
        let mut buf = {
            let mut c = buf.unfilled();
            c.advance(4);
            c.finish()
        };
        buf.clear();
        let mut cursor = buf.unfilled();
        assert!(cursor.append(&full[split..]).is_ok());
        assert!(cursor.append(&full[..split]).is_ok());
        assert_eq!(cursor.written(), 4);
        let buf = cursor.finish();
        assert_eq!(buf.filled(), full);
    }
}

#[test]
fn cursor_capacity_after_prefill() {
    // Capacity-3 region with one byte pre-marked filled before the cursor
    // is taken: the cursor sees 2 bytes of space.
    let buf = RevBorrowedBuf::from_filled(vec![1u8, 2, 3]);
    let mut cursor = buf.unfilled();
    cursor.advance(1);
    let buf = cursor.finish();
    let cursor = buf.unfilled();
    assert_eq!(cursor.capacity(), 2);
}

#[test]
fn ensure_init_zero_fills_raw_region() {
    // Raw region of capacity 4: after ensure_init the defined boundary is 0
    // and every byte reads as zero.
    let buf = RevBorrowedBuf::from_raw(vec![7u8, 7, 7, 7]);
    assert_eq!(buf.init_len(), 0);
    let mut cursor = buf.unfilled();
    cursor.ensure_init();
    assert_eq!(cursor.init_ref(), [0, 0, 0, 0]);
    let buf = cursor.finish();
    assert_eq!(buf.init_len(), 4);
    assert_eq!(buf.len(), 0);
}

#[test]
fn reborrow_written_counts_earlier_writes() {
    let buf = RevBorrowedBuf::from_filled(vec![1u8, 2, 3]);
    let mut cursor = buf.unfilled();
    assert!(cursor.append(&[9]).is_ok());
    let mut reborrowed = cursor.reborrow();
    assert!(reborrowed.append(&[8]).is_ok());
    // the count covers the byte written before the reborrow too
    assert_eq!(reborrowed.written(), 2);
    let buf = reborrowed.finish();
    assert_eq!(buf.filled(), [8, 9]);
}

#[test]
fn getters_on_fresh_buffers() {
    let full = RevBorrowedBuf::from_filled(vec![5u8, 6]);
    assert_eq!(full.capacity(), 2);
    assert_eq!(full.len(), 0);
    assert_eq!(full.init_len(), 2);
    assert!(!full.is_empty());

    let raw = RevBorrowedBuf::from_raw(vec![5u8, 6]);
    assert_eq!(raw.capacity(), 2);
    assert_eq!(raw.len(), 0);
    assert_eq!(raw.init_len(), 0);

    let empty = RevBorrowedBuf::from_filled(Vec::new());
    assert!(empty.is_empty());
    assert_eq!(empty.capacity(), 0);
}

#[test]
fn clear_keeps_contents_and_init() {
    let buf = RevBorrowedBuf::from_filled(vec![1u8, 2]);
    let mut buf = {
        let mut c = buf.unfilled();
        assert!(c.append(&[8, 9]).is_ok());
        c.finish()
    };
    assert_eq!(buf.filled(), [8, 9]);
    buf.clear();
    assert_eq!(buf.len(), 0);
    assert_eq!(buf.init_len(), 2);
    let cursor = buf.unfilled();
    assert_eq!(cursor.init_ref(), [8, 9]);
}

#[test]
fn buf_set_init_is_monotonic() {
    let mut buf = RevBorrowedBuf::from_raw(vec![0u8, 0, 0]);
    assert_eq!(buf.init_len(), 0);
    // attest that the trailing byte (index 2 and above) is defined
    buf.set_init(2);
    assert_eq!(buf.init_len(), 1);
    // a weaker claim than what is already tracked changes nothing
    buf.set_init(3);
    assert_eq!(buf.init_len(), 1);
    buf.set_init(0);
    assert_eq!(buf.init_len(), 3);
}

#[test]
fn cursor_set_init_saturates() {
    let buf = RevBorrowedBuf::from_raw(vec![0u8, 0, 0]);
    let mut cursor = buf.unfilled();
    cursor.set_init(1);
    assert_eq!(cursor.init_ref(), [0]);
    // more bytes than the unfilled range holds: the boundary stops at 0
    cursor.set_init(5);
    let buf = cursor.finish();
    assert_eq!(buf.init_len(), 3);
}

#[test]
fn uninit_write_then_advance() {
    let buf = RevBorrowedBuf::from_raw(vec![0u8, 0, 0]);
    let mut cursor = buf.unfilled();
    // write into the never-yet-defined prefix, then report it
    cursor.uninit_mut(2, 42);
    cursor.set_init(1);
    cursor.advance(1);
    assert_eq!(cursor.written(), 1);
    let buf = cursor.finish();
    assert_eq!(buf.filled(), [42]);
}

#[test]
fn init_write_then_advance() {
    let buf = RevBorrowedBuf::from_filled(vec![5u8, 6, 7]);
    let mut cursor = buf.unfilled();
    cursor.init_mut(0, 9);
    cursor.advance(3);
    let buf = cursor.finish();
    assert_eq!(buf.filled(), [9, 6, 7]);
}

#[test]
fn as_mut_write_then_advance() {
    let buf = RevBorrowedBuf::from_filled(vec![5u8, 6, 7]);
    let mut cursor = buf.unfilled();
    cursor.as_mut(1, 66);
    cursor.advance(2);
    let buf = cursor.finish();
    assert_eq!(buf.filled(), [66, 7]);
}

#[test]
fn filled_mut_rewrites_filled_byte() {
    let buf = RevBorrowedBuf::from_filled(vec![1u8, 2, 3]);
    let mut buf = {
        let mut c = buf.unfilled();
        c.advance(2);
        c.finish()
    };
    assert_eq!(buf.filled(), [2, 3]);
    buf.filled_mut(0, 9);
    assert_eq!(buf.filled(), [9, 3]);
}
