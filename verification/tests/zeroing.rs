use safebox::memzero;
use safebox::SafeBox;

#[test]
fn memzero_clears_every_byte() {
    let mut region = [1_u8, 2, 3, 0, 255, 128, 7];
    memzero(&mut region);
    assert_eq!(region, [0_u8; 7]);
}

#[test]
fn memzero_keeps_the_length() {
    let mut region: Vec<u8> = (0..1000_u32).map(|i| (i % 251) as u8 + 1).collect();
    memzero(&mut region);
    assert_eq!(region.len(), 1000);
    assert_eq!(region, vec![0_u8; 1000]);
}

#[test]
fn memzero_of_an_empty_region() {
    let mut region: [u8; 0] = [];
    memzero(&mut region);
    assert_eq!(region.len(), 0);
    let mut v: Vec<u8> = Vec::new();
    memzero(&mut v);
    assert!(v.is_empty());
}

#[test]
fn memzero_of_a_part_leaves_the_rest() {
    let mut region = [9_u8; 8];
    memzero(&mut region[2..5]);
    assert_eq!(region, [9_u8, 9, 0, 0, 0, 9, 9, 9]);
}

#[test]
fn memzero_twice_is_the_same_as_once() {
    let mut region = [4_u8; 5];
    memzero(&mut region);
    memzero(&mut region);
    assert_eq!(region, [0_u8; 5]);
}

#[test]
fn wiped_box_reads_as_zeros() {
    let mut s = SafeBox::new_slice(42_u8, 100);
    s.get_mut()[78] = 99;
    memzero(s.get_mut());
    let reference: &[u8] = &vec![0; 100];
    assert_eq!(s.get_ref(), reference);
}

#[test]
fn wiped_box_can_be_written_again() {
    let mut s = SafeBox::new_slice(1_u8, 3);
    memzero(s.get_mut());
    s.get_mut()[1] = 5;
    assert_eq!(s.get_ref(), &[0_u8, 5, 0]);
}

#[test]
fn wiping_a_clone_leaves_the_source() {
    let a = SafeBox::new_slice(0x5a_u8, 32);
    let mut b = a.clone();
    memzero(b.get_mut());
    assert_eq!(a.get_ref(), &[0x5a_u8; 32]);
    assert_eq!(b.get_ref(), &[0_u8; 32]);
}

#[test]
fn wiped_empty_box() {
    let mut s = SafeBox::new_slice(1_u8, 0);
    memzero(s.get_mut());
    assert!(s.get_ref().is_empty());
}
