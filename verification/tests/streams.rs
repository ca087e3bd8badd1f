use simd_zip::iters::{SIMDIterator, SIMDObject, SIMDRefIter, UncheckedIterator};

#[test]
fn a_stream_hands_out_full_vectors_and_then_a_padded_tail() {
    let data: Vec<i32> = (1..=10).collect();
    let mut s = SIMDRefIter::<i32, 4>::new(&data[..], [-1, -2, -3, -4]);
    assert_eq!(s.width(), 4);
    assert_eq!(s.size(), 4);
    assert_eq!(s.scalar_len(), 10);
    assert_eq!(s.scalar_pos(), 0);
    assert_eq!(s.default(), [-1, -2, -3, -4]);
    assert_eq!(s.next(), Some([1, 2, 3, 4]));
    assert_eq!(s.scalar_pos(), 4);
    assert_eq!(s.next(), Some([5, 6, 7, 8]));
    assert_eq!(s.next(), None);
    assert_eq!(s.scalar_pos(), 8);
    assert_eq!(s.end(), Some(([9, 10, -3, -4], 2)));
    assert_eq!(s.scalar_pos(), 10);
    assert_eq!(s.end(), None);
    assert_eq!(s.next(), None);
}

#[test]
fn end_hands_out_nothing_while_a_full_vector_is_left() {
    let data: Vec<u8> = (0..6).collect();
    let mut s = SIMDRefIter::<u8, 4>::new(&data[..], [9; 4]);
    assert_eq!(s.end(), None);
    assert_eq!(s.scalar_pos(), 0);
    assert_eq!(s.next(), Some([0, 1, 2, 3]));
    assert_eq!(s.end(), Some(([4, 5, 9, 9], 2)));
    assert_eq!(s.end(), None);
    let even: Vec<u8> = (0..8).collect();
    let mut s = SIMDRefIter::<u8, 4>::new(&even[..], [9; 4]);
    assert_eq!(s.end(), None);
    s.advance(4);
    assert_eq!(s.end(), None);
    assert_eq!(s.scalar_pos(), 4);
    s.advance(1);
    assert_eq!(s.end(), Some(([5, 6, 7, 9], 3)));
}

#[test]
fn advance_skips_scalars() {
    let data: Vec<u8> = (0..9).collect();
    let mut s = SIMDRefIter::<u8, 4>::new(&data[..], [0; 4]);
    s.advance(1);
    assert_eq!(s.next(), Some([1, 2, 3, 4]));
    assert_eq!(s.next(), Some([5, 6, 7, 8]));
    assert_eq!(s.next(), None);
    assert_eq!(s.end(), None);
    let mut s = SIMDRefIter::<u8, 4>::new(&data[..], [0; 4]);
    s.advance(6);
    assert_eq!(s.next(), None);
    assert_eq!(s.end(), Some(([6, 7, 8, 0], 3)));
    let mut s = SIMDRefIter::<u8, 4>::new(&data[..], [0; 4]);
    s.advance(9);
    assert_eq!(s.scalar_pos(), 9);
    assert_eq!(s.next(), None);
    assert_eq!(s.end(), None);
}

#[test]
fn the_reads_at_a_given_position_move_the_stream_behind_what_they_read() {
    let data: Vec<i16> = (0..10).collect();
    let mut s = SIMDRefIter::<i16, 4>::new(&data[..], [-1; 4]);
    assert_eq!(s.next_unchecked(5), [5, 6, 7, 8]);
    assert_eq!(s.scalar_pos(), 9);
    assert_eq!(s.next_unchecked(0), [0, 1, 2, 3]);
    assert_eq!(s.scalar_pos(), 4);
    assert_eq!(s.end_unchecked(8, 2), [8, 9, -1, -1]);
    assert_eq!(s.scalar_pos(), 10);
    assert_eq!(s.end_unchecked(2, 3), [2, 3, 4, -1]);
    assert_eq!(s.scalar_pos(), 5);
    assert_eq!(s.end_unchecked(6, 4), [6, 7, 8, 9]);
    assert_eq!(s.end_unchecked(10, 0), [-1; 4]);
    assert_eq!(s.scalar_pos(), 10);
}

#[test]
fn the_size_is_that_of_one_scalar() {
    let bytes = [0u8; 1];
    let words = [0u64; 1];
    let floats = [0f32; 1];
    assert_eq!(SIMDRefIter::<u8, 16>::new(&bytes[..], [0; 16]).size(), 1);
    assert_eq!(SIMDRefIter::<u64, 2>::new(&words[..], [0; 2]).size(), 8);
    assert_eq!(SIMDRefIter::<f32, 4>::new(&floats[..], [0.0; 4]).size(), 4);
    assert_eq!(SIMDRefIter::<u8, 16>::new(&bytes[..], [0; 16]).width(), 16);
}
