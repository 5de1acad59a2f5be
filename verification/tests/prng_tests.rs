use ubench::buffer::{aligned_buffer, SECTOR_SIZE};
use ubench::prng::{random_offset, XorShift64, OFFSET_SEED};

#[test]
fn xorshift_sequence_from_the_standard_seed() {
    let mut p = XorShift64::new(OFFSET_SEED);
    assert_eq!(p.next(), 0x3622222232921646);
    assert_eq!(p.next(), 0x23f389cc576e63ea);
    assert_eq!(p.next(), 0x7c20276dd37f05ad);
}

#[test]
fn zero_seed_is_replaced_by_one() {
    let mut a = XorShift64::new(0);
    let mut b = XorShift64::new(1);
    assert_eq!(a.next(), 0x40822041);
    assert_eq!(b.next(), 0x40822041);
}

#[test]
fn same_seed_same_offsets() {
    let ws: u64 = 256 * 1024 * 1024;
    let mut a = XorShift64::new(OFFSET_SEED);
    let mut b = XorShift64::new(OFFSET_SEED);
    for _ in 0..1000 {
        assert_eq!(random_offset(&mut a, ws, 4096), random_offset(&mut b, ws, 4096));
    }
}

#[test]
fn random_offsets_of_the_quick_random_tests() {
    let ws: u64 = 256 * 1024 * 1024;
    let mut p = XorShift64::new(OFFSET_SEED);
    assert_eq!(random_offset(&mut p, ws, 4096), 168935424);
    assert_eq!(random_offset(&mut p, ws, 4096), 110198784);
    assert_eq!(random_offset(&mut p, ws, 4096), 130785280);
}

#[test]
fn random_offsets_stay_inside_the_working_set() {
    let mut p = XorShift64::new(OFFSET_SEED);
    for (ws, bs) in [(16u64 * 1024 * 1024, 4096u64), (8192, 4096), (12288, 4096), (4096, 4096), (100, 4096)] {
        for _ in 0..500 {
            let off = random_offset(&mut p, ws, bs);
            assert_eq!(off % bs, 0);
            if ws >= bs {
                assert!(off + bs <= ws);
            } else {
                assert_eq!(off, 0);
            }
        }
    }
}

#[test]
fn buffer_starts_zeroed_and_fills_with_the_pattern() {
    let mut b = aligned_buffer(12);
    assert_eq!(b.len(), 12);
    assert_eq!(b.as_slice(), &[0u8; 12]);
    b.fill_random(1);
    assert_eq!(b.as_slice(), &[65, 32, 130, 64, 0, 0, 0, 0, 65, 20, 1, 12]);
    let mut c = aligned_buffer(12);
    c.fill_random(0);
    assert_eq!(c.as_slice(), b.as_slice());
}

#[test]
fn buffer_pattern_is_xorshift_little_endian() {
    let mut b = aligned_buffer(SECTOR_SIZE);
    b.fill_random(0xA5A5_5A5A_DEAD_BEEF);
    let mut p = XorShift64::new(0xA5A5_5A5A_DEAD_BEEF);
    for chunk in b.as_slice().chunks(8) {
        let x = p.next().to_le_bytes();
        assert_eq!(chunk, &x[..]);
    }
}

#[test]
fn mutable_slice_writes_through() {
    let mut b = aligned_buffer(8);
    b.as_mut_slice()[3] = 7;
    assert_eq!(b.as_slice()[3], 7);
    let empty = aligned_buffer(0);
    assert_eq!(empty.len(), 0);
}
