use nix::errno::Errno;
use zvec::zvec::{Error, ZVec};

#[test]
fn new_is_zeroed_and_fully_visible() {
    for n in [0usize, 1, 7, 32] {
        let z = ZVec::new(n);
        assert_eq!(z.len(), n);
        assert_eq!(z.capacity(), n);
        assert!(z.as_slice().iter().all(|b| *b == 0));
        assert_eq!(z.backing().len(), n);
    }
}

#[test]
fn reduce_len_shrinks_and_ignores_larger() {
    let mut z = ZVec::new(10);
    z.reduce_len(4);
    assert_eq!(z.len(), 4);
    assert_eq!(z.capacity(), 10);
    z.reduce_len(11);
    assert_eq!(z.len(), 4);
    z.reduce_len(10);
    assert_eq!(z.len(), 10);
    z.reduce_len(0);
    assert!(z.is_empty());
    assert_eq!(z.capacity(), 10);
}

#[test]
fn clone_is_independent() {
    let mut z = ZVec::from_slice(&[1, 2, 3, 4]);
    z.reduce_len(3);
    let mut c = z.try_clone();
    assert_eq!(c.as_slice(), &[1, 2, 3]);
    assert_eq!(c.capacity(), 3);
    c.set(0, 9);
    assert_eq!(z.as_slice(), &[1, 2, 3]);
    z.set(1, 8);
    assert_eq!(c.as_slice(), &[9, 2, 3]);
    assert_eq!(z.as_slice(), &[1, 8, 3]);
}

#[test]
fn from_slice_copies_exactly() {
    let src = [5u8, 6, 7, 8, 9];
    let z = ZVec::from_slice(&src);
    assert_eq!(z.as_slice(), &src);
    assert_eq!(z.capacity(), 5);
    let e = ZVec::from_slice(&[]);
    assert_eq!(e.len(), 0);
    assert_eq!(e.capacity(), 0);
}

#[test]
fn from_vec_keeps_allocation() {
    let mut v: Vec<u8> = Vec::with_capacity(16);
    v.extend_from_slice(&[1, 2, 3]);
    let cap = v.capacity();
    let z = ZVec::from_vec(v);
    assert_eq!(z.as_slice(), &[1, 2, 3]);
    assert_eq!(z.len(), 3);
    assert_eq!(z.capacity(), cap);
    assert!(z.capacity() >= 16);
    assert!(z.backing()[3..].iter().all(|b| *b == 0));
}

#[test]
fn wipe_zeroes_whole_allocation() {
    let mut z = ZVec::from_slice(&[0xAA; 12]);
    z.reduce_len(5);
    z.wipe();
    assert_eq!(z.len(), 5);
    assert_eq!(z.backing(), &[0u8; 12]);
}

#[test]
fn debug_text_is_redacted() {
    let z = ZVec::from_slice(&[0x41, 0x42, 0x43]);
    assert_eq!(z.debug_text(), "Zvec size: 3 [ Sensitive information redacted ]");
    assert!(!z.debug_text().contains("ABC"));
    let mut w = ZVec::new(32);
    w.reduce_len(17);
    assert_eq!(w.debug_text(), "Zvec size: 17 [ Sensitive information redacted ]");
    assert_eq!(ZVec::new(0).debug_text(), "Zvec empty");
}

#[test]
fn lock_outcome_decides_result() {
    let z = ZVec::new(4);
    assert!(z.needs_lock());
    let ok = z.locked(Ok(())).unwrap();
    assert_eq!(ok.len(), 4);
    let z = ZVec::new(4);
    assert_eq!(z.locked(Err(Errno::ENOMEM)).err(), Some(Error::NixError(Errno::ENOMEM)));
    assert!(!ZVec::new(0).needs_lock());
}

#[test]
fn shrink_then_clone_scenario() {
    let mut z = ZVec::new(32);
    for i in 0..16usize {
        z.set(i, (i as u8) + 1);
    }
    z.reduce_len(8);
    let c = z.try_clone();
    assert_eq!(c.capacity(), 8);
    assert_eq!(c.as_slice(), &[1, 2, 3, 4, 5, 6, 7, 8]);
    z.wipe();
    assert_eq!(z.backing(), &[0u8; 32]);
    assert_eq!(c.as_slice(), &[1, 2, 3, 4, 5, 6, 7, 8]);
    let mut c = c;
    c.wipe();
    assert_eq!(c.backing(), &[0u8; 8]);
}

#[test]
fn empty_buffer_scenario() {
    let z = ZVec::new(0);
    assert!(!z.needs_lock());
    assert_eq!(z.debug_text(), "Zvec empty");
    let z = z.locked(Ok(())).unwrap();
    drop(z);
}

#[test]
fn copy_from_slice_keeps_hidden_bytes() {
    let mut z = ZVec::from_slice(&[1, 2, 3, 4]);
    z.reduce_len(2);
    z.copy_from_slice(&[7, 8]);
    assert_eq!(z.as_slice(), &[7, 8]);
    assert_eq!(z.backing(), &[7, 8, 3, 4]);
}
