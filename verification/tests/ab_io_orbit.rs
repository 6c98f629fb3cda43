use yaws_tls::{AbIoLeft, AbIoRight};

#[test]
fn left_copy_in_appends_and_counts() {
    let mut l = AbIoLeft::default();
    let mut a = [1u8, 2, 3];
    assert_eq!(l.copy_in(&mut a), 3);
    let mut b = [4u8, 5];
    assert_eq!(l.copy_in(&mut b), 2);
    assert_eq!(l.left_lens(), (5, 0));
    let (inb, _out) = l.left_bufs_mut();
    assert_eq!(&inb[..], &[1, 2, 3, 4, 5]);
}

#[test]
fn left_set_lens_shrinking_input_drops_front() {
    let mut l = AbIoLeft::default();
    let mut a = [10u8, 11, 12, 13, 14];
    l.copy_in(&mut a);
    l.left_set_lens(2, 0);
    assert_eq!(l.left_lens(), (2, 0));
    let (inb, _out) = l.left_bufs_mut();
    assert_eq!(&inb[..], &[13, 14]);
}

#[test]
fn left_set_lens_shrinking_output_drops_front() {
    let mut l = AbIoLeft::with_out_buffer(vec![1, 2, 3, 4, 5, 6]);
    l.left_set_lens(0, 4);
    assert_eq!(l.pending_out(), &[1, 2, 3, 4]);
    l.left_set_lens(0, 1);
    // three bytes were taken off the front
    assert_eq!(l.left_lens(), (0, 1));
    assert_eq!(l.pending_out(), &[4]);
    assert_eq!(l.out_bytes, vec![4, 5, 6]);
}

#[test]
fn left_set_lens_growing_only_moves_length() {
    let mut l = AbIoLeft::with_out_buffer(vec![0; 8]);
    l.left_set_lens(0, 3);
    assert_eq!(l.left_lens(), (0, 3));
    assert_eq!(l.out_bytes.len(), 8);
}

#[test]
fn left_bufs_mut_writes_reach_the_buffers() {
    let mut l = AbIoLeft::with_out_buffer(vec![0; 4]);
    let mut a = [1u8, 2];
    l.copy_in(&mut a);
    {
        let (inb, out) = l.left_bufs_mut();
        inb[0] = 9;
        out[3] = 7;
    }
    let (inb, out) = l.left_bufs_mut();
    assert_eq!(&inb[..], &[9, 2]);
    assert_eq!(&out[..], &[0, 0, 0, 7]);
}

#[test]
fn left_flags() {
    let mut l = AbIoLeft::default();
    assert!(!l.left_in_blocked());
    l.set_left_in_blocked(true);
    assert!(l.left_in_blocked());
    assert!(!l.is_ready());
    assert!(l.set_ready(true));
    assert!(l.is_ready());
    assert!(!l.left_want_read());
    l.set_left_want_read(true);
    assert!(l.left_want_read());
    assert!(!l.left_want_write());
    l.set_left_want_write(true);
    assert!(l.left_want_write());
    l.shutdown();
}

#[test]
fn right_output_add_and_all_sent() {
    let mut r = AbIoRight::default();
    r.add_right_out(b"abc");
    r.add_right_out(b"de");
    assert_eq!(r.right_lens(), (0, 5));
    assert_eq!(r.buf_right_out(), b"abcde");
    r.all_sent_right_out();
    assert_eq!(r.right_lens(), (0, 0));
    assert_eq!(r.buf_right_out(), b"");
}

#[test]
fn right_input_add_and_clear() {
    let mut r = AbIoRight::default();
    r.add_right_in(b"hello");
    assert_eq!(r.right_lens(), (5, 0));
    assert_eq!(r.pending_in(), b"hello");
    r.clear_pending_in();
    assert_eq!(r.right_lens(), (0, 0));
    // the bytes stay in the buffer
    assert_eq!(r.in_bytes, b"hello".to_vec());
}

#[test]
fn right_wants_next_in() {
    let mut r = AbIoRight::default();
    assert!(!r.wants_right_next_in());
    r.set_wants_right_next_in(true);
    assert!(r.wants_right_next_in());
}

#[test]
fn lens_in_bounds_checks_both_sides() {
    let mut l = AbIoLeft::with_out_buffer(vec![0; 4]);
    assert!(l.lens_in_bounds());
    l.out_bytes_len = 5;
    assert!(!l.lens_in_bounds());
    let mut r = AbIoRight::default();
    assert!(r.lens_in_bounds());
    r.in_bytes_len = 1;
    assert!(!r.lens_in_bounds());
}
