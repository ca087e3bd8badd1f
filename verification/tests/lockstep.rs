use simd_zip::iters::{SIMDIterator, SIMDRefIter};
use simd_zip::zip::{IntoSIMDZip, SIMDZippedIterable, SIMDZippedIterator, Zip};

type Stream<'a> = SIMDRefIter<'a, i32, 4>;

fn positions(z: &Zip<(Stream, Stream, Stream)>) -> [usize; 3] {
    let m = z.iters();
    [m.0.scalar_pos(), m.1.scalar_pos(), m.2.scalar_pos()]
}

#[test]
fn members_stand_together_after_every_vector_handed_out() {
    let data: Vec<i32> = (0..14).collect();
    let s = || Stream::new(&data[..], [0; 4]);
    let mut z = (s(), s(), s()).zip();
    assert_eq!(positions(&z), [0, 0, 0]);
    assert!(z.next().is_some());
    assert_eq!(positions(&z), [4, 4, 4]);
    assert!(z.next().is_some());
    assert_eq!(positions(&z), [8, 8, 8]);
    assert!(z.next().is_some());
    assert_eq!(positions(&z), [12, 12, 12]);
    assert!(z.next().is_none());
    assert_eq!(positions(&z), [12, 12, 12]);
    assert_eq!(z.end().map(|(_, n)| n), Some(2));
    assert_eq!(positions(&z), [14, 14, 14]);
    assert!(z.end().is_none());
    assert_eq!(positions(&z), [14, 14, 14]);
}

#[test]
fn advance_moves_the_leader_and_the_next_vector_brings_the_others() {
    let data: Vec<i32> = (0..14).collect();
    let s = || Stream::new(&data[..], [0; 4]);
    let mut z = (s(), s(), s()).zip();
    z.advance(0);
    assert_eq!(positions(&z), [0, 0, 0]);
    z.advance(5);
    assert_eq!(z.scalar_pos(), 5);
    assert_eq!(positions(&z), [5, 0, 0]);
    assert_eq!(z.next(), Some(([5, 6, 7, 8], [5, 6, 7, 8], [5, 6, 7, 8])));
    assert_eq!(positions(&z), [9, 9, 9]);
    z.advance(2);
    assert_eq!(positions(&z), [11, 9, 9]);
    assert_eq!(z.next(), None);
    assert_eq!(positions(&z), [11, 9, 9]);
    assert_eq!(z.end(), Some((([11, 12, 13, 0], [11, 12, 13, 0], [11, 12, 13, 0]), 3)));
    assert_eq!(positions(&z), [14, 14, 14]);
}

#[test]
fn finalize_leaves_nothing_to_hand_out() {
    let data: Vec<i32> = (0..14).collect();
    let s = || Stream::new(&data[..], [0; 4]);
    let mut z = (s(), s(), s()).zip();
    z.next();
    z.finalize();
    assert_eq!(z.scalar_pos(), 14);
    assert_eq!(z.scalar_pos(), z.scalar_len());
    assert_eq!(z.next(), None);
    assert_eq!(z.end(), None);
    z.finalize();
    assert_eq!(z.scalar_pos(), 14);
}

#[test]
fn members_that_start_apart_are_read_at_the_leaders_position() {
    let left: Vec<i32> = (0..8).collect();
    let right: Vec<i32> = (100..108).collect();
    let a = Stream::new(&left[..], [0; 4]);
    let mut b = Stream::new(&right[..], [0; 4]);
    b.advance(4);
    let mut z = (a, b).zip();
    assert_eq!(z.scalar_pos(), 0);
    assert_eq!(z.next(), Some(([0, 1, 2, 3], [100, 101, 102, 103])));
    assert_eq!(z.iters().0.scalar_pos(), 4);
    assert_eq!(z.iters().1.scalar_pos(), 4);
}
