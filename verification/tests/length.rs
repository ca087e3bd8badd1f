use simd_zip::iters::{SIMDIterator, SIMDRefIter};
use simd_zip::zip::{IntoSIMDZip, SIMDZippedIterable, SIMDZippedIterator, SIMDZippedObject};

fn drain<const W: usize>(len: usize) -> (usize, Option<usize>) {
    let left: Vec<u16> = (0..len).map(|i| i as u16).collect();
    let right: Vec<u16> = (0..len).map(|i| (i * 2) as u16).collect();
    let a = SIMDRefIter::<u16, W>::new(&left[..], [0; W]);
    let b = SIMDRefIter::<u16, W>::new(&right[..], [0; W]);
    let mut z = (a, b).zip();
    assert_eq!(z.scalar_len(), len);
    assert_eq!(z.len(), len);
    assert_eq!(z.vector_len(), len / W);
    let mut full = 0;
    while let Some(_) = z.next() {
        full += 1;
    }
    let tail = z.end().map(|(_, n)| n);
    assert!(z.end().is_none());
    assert_eq!(z.scalar_pos(), len);
    (full, tail)
}

#[test]
fn full_vectors_are_the_quotient_and_the_tail_is_the_remainder() {
    assert_eq!(drain::<4>(10), (2, Some(2)));
    assert_eq!(drain::<4>(11), (2, Some(3)));
    assert_eq!(drain::<8>(100), (12, Some(4)));
    assert_eq!(drain::<3>(100), (33, Some(1)));
    assert_eq!(drain::<16>(17), (1, Some(1)));
}

#[test]
fn no_tail_where_the_width_divides_the_length() {
    assert_eq!(drain::<4>(100), (25, None));
    assert_eq!(drain::<4>(4), (1, None));
    assert_eq!(drain::<1>(7), (7, None));
    assert_eq!(drain::<8>(64), (8, None));
}

#[test]
fn streams_shorter_than_a_vector_have_only_a_tail() {
    assert_eq!(drain::<4>(1), (0, Some(1)));
    assert_eq!(drain::<4>(3), (0, Some(3)));
    assert_eq!(drain::<8>(7), (0, Some(7)));
}

#[test]
fn empty_streams_hand_out_nothing() {
    assert_eq!(drain::<4>(0), (0, None));
    assert_eq!(drain::<1>(0), (0, None));
}

#[test]
fn for_every_length_and_width_the_counts_add_up() {
    for len in 0..40usize {
        let (full, tail) = drain::<5>(len);
        assert_eq!(full, len / 5);
        assert_eq!(tail.is_some(), len % 5 != 0);
        assert_eq!(full * 5 + tail.unwrap_or(0), len);
        if let Some(n) = tail {
            assert_eq!(n, len % 5);
        }
    }
}

#[test]
fn zip_reports_the_leaders_length_width_size_and_position() {
    let left = [0u32; 9];
    let right = [0u8; 9];
    let mut a = SIMDRefIter::<u32, 2>::new(&left[..], [0; 2]);
    let b = SIMDRefIter::<u8, 2>::new(&right[..], [0; 2]);
    a.advance(3);
    let z = (a, b).zip();
    assert_eq!(z.scalar_len(), 9);
    assert_eq!(z.len(), 9);
    assert_eq!(z.width(), 2);
    assert_eq!(z.size(), 4);
    assert_eq!(z.scalar_pos(), 3);
    assert_eq!(z.vector_pos(), 1);
    assert_eq!(z.vector_len(), 4);
}

#[test]
fn vector_pos_is_the_floor_of_the_position_over_the_width() {
    let left = [0i64; 20];
    let right = [0i64; 20];
    let a = SIMDRefIter::<i64, 4>::new(&left[..], [0; 4]);
    let b = SIMDRefIter::<i64, 4>::new(&right[..], [0; 4]);
    let mut z = (a, b).zip();
    assert_eq!(z.vector_pos(), 0);
    z.advance(3);
    assert_eq!(z.scalar_pos(), 3);
    assert_eq!(z.vector_pos(), 0);
    z.advance(1);
    assert_eq!(z.vector_pos(), 1);
    z.next();
    assert_eq!(z.scalar_pos(), 8);
    assert_eq!(z.vector_pos(), 2);
    z.advance(11);
    assert_eq!(z.scalar_pos(), 19);
    assert_eq!(z.vector_pos(), 4);
}
