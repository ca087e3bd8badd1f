use simd_zip::iters::{SIMDIterator, SIMDRefIter};
use simd_zip::zip::{IntoSIMDZip, SIMDZippedIterable, SIMDZippedIterator};

#[test]
fn pair_of_unequal_lengths_is_handed_back() {
    let left = [1u8; 10];
    let right = [2u8; 9];
    let a = SIMDRefIter::<u8, 4>::new(&left[..], [0; 4]);
    let b = SIMDRefIter::<u8, 4>::new(&right[..], [0; 4]);
    assert!(!(a, b).lengths_match());
    let a = SIMDRefIter::<u8, 4>::new(&left[..], [0; 4]);
    let b = SIMDRefIter::<u8, 4>::new(&right[..], [0; 4]);
    match (a, b).try_zip() {
        Ok(_) => panic!("streams of 10 and 9 scalars were zipped"),
        Err((a, b)) => {
            assert_eq!(a.scalar_len(), 10);
            assert_eq!(b.scalar_len(), 9);
            assert_eq!(a.scalar_pos(), 0);
            assert_eq!(b.scalar_pos(), 0);
        },
    }
}

#[test]
fn pair_of_equal_lengths_is_zipped() {
    let left = [1u8; 10];
    let right = [2u8; 10];
    let a = SIMDRefIter::<u8, 4>::new(&left[..], [0; 4]);
    let b = SIMDRefIter::<u8, 4>::new(&right[..], [0; 4]);
    assert!((a, b).lengths_match());
    let a = SIMDRefIter::<u8, 4>::new(&left[..], [0; 4]);
    let b = SIMDRefIter::<u8, 4>::new(&right[..], [0; 4]);
    match (a, b).try_zip() {
        Ok(z) => assert_eq!(z.scalar_len(), 10),
        Err(_) => panic!("streams of 10 and 10 scalars were refused"),
    }
}

#[test]
fn a_zip_that_was_tried_is_the_zip() {
    let left = [1u8, 2, 3, 4, 5];
    let right = [6u8, 7, 8, 9, 10];
    let a = SIMDRefIter::<u8, 4>::new(&left[..], [0; 4]);
    let b = SIMDRefIter::<u8, 4>::new(&right[..], [0; 4]);
    let mut z = (a, b).try_zip().unwrap();
    assert_eq!(z.next(), Some(([1, 2, 3, 4], [6, 7, 8, 9])));
    assert_eq!(z.end(), Some((([5, 0, 0, 0], [10, 0, 0, 0]), 1)));
}

#[test]
fn one_short_member_among_three_is_enough() {
    let long = [0i32; 8];
    let short = [0i32; 7];
    for odd in 0..3 {
        let data = |i: usize| if i == odd { &short[..] } else { &long[..] };
        let a = SIMDRefIter::<i32, 2>::new(data(0), [0; 2]);
        let b = SIMDRefIter::<i32, 2>::new(data(1), [0; 2]);
        let c = SIMDRefIter::<i32, 2>::new(data(2), [0; 2]);
        assert!(!(a, b, c).lengths_match());
        let a = SIMDRefIter::<i32, 2>::new(data(0), [0; 2]);
        let b = SIMDRefIter::<i32, 2>::new(data(1), [0; 2]);
        let c = SIMDRefIter::<i32, 2>::new(data(2), [0; 2]);
        assert!((a, b, c).try_zip().is_err());
    }
}

#[test]
fn one_long_member_among_thirteen_is_enough() {
    let usual = [0u64; 5];
    let long = [0u64; 6];
    for odd in 0..13 {
        let s = |i: usize| {
            SIMDRefIter::<u64, 2>::new(if i == odd { &long[..] } else { &usual[..] }, [0; 2])
        };
        let members =
            (s(0), s(1), s(2), s(3), s(4), s(5), s(6), s(7), s(8), s(9), s(10), s(11), s(12));
        assert!(!members.lengths_match());
        match members.try_zip() {
            Ok(_) => panic!("a member of another length was accepted"),
            Err(back) => {
                assert_eq!(back.0.scalar_pos(), 0);
                assert_eq!(back.12.scalar_pos(), 0);
                assert_eq!(back.0.scalar_len(), if odd == 0 { 6 } else { 5 });
                assert_eq!(back.12.scalar_len(), if odd == 12 { 6 } else { 5 });
            },
        }
    }
    let s = |_: usize| SIMDRefIter::<u64, 2>::new(&usual[..], [0; 2]);
    let members = (s(0), s(1), s(2), s(3), s(4), s(5), s(6), s(7), s(8), s(9), s(10), s(11), s(12));
    assert!(members.lengths_match());
    assert!(members.try_zip().is_ok());
}

#[test]
fn every_arity_refuses_a_short_last_member() {
    let long = [0u8; 4];
    let short = [0u8; 3];
    let l = || SIMDRefIter::<u8, 2>::new(&long[..], [0; 2]);
    let s = || SIMDRefIter::<u8, 2>::new(&short[..], [0; 2]);
    assert!((l(), s()).try_zip().is_err());
    assert!((l(), l(), s()).try_zip().is_err());
    assert!((l(), l(), l(), s()).try_zip().is_err());
    assert!((l(), l(), l(), l(), s()).try_zip().is_err());
    assert!((l(), l(), l(), l(), l(), s()).try_zip().is_err());
    assert!((l(), l(), l(), l(), l(), l(), s()).try_zip().is_err());
    assert!((l(), l(), l(), l(), l(), l(), l(), s()).try_zip().is_err());
    assert!((l(), l(), l(), l(), l(), l(), l(), l(), s()).try_zip().is_err());
    assert!((l(), l(), l(), l(), l(), l(), l(), l(), l(), s()).try_zip().is_err());
    assert!((l(), l(), l(), l(), l(), l(), l(), l(), l(), l(), s()).try_zip().is_err());
    assert!((l(), l(), l(), l(), l(), l(), l(), l(), l(), l(), l(), s()).try_zip().is_err());
    assert!((l(), l(), l(), l(), l(), l(), l(), l(), l(), l(), l(), l(), s()).try_zip().is_err());
    assert!((l(), l()).try_zip().is_ok());
    assert!((l(), l(), l()).try_zip().is_ok());
    assert!((l(), l(), l(), l()).try_zip().is_ok());
    assert!((l(), l(), l(), l(), l()).try_zip().is_ok());
    assert!((l(), l(), l(), l(), l(), l()).try_zip().is_ok());
    assert!((l(), l(), l(), l(), l(), l(), l()).try_zip().is_ok());
    assert!((l(), l(), l(), l(), l(), l(), l(), l()).try_zip().is_ok());
    assert!((l(), l(), l(), l(), l(), l(), l(), l(), l()).try_zip().is_ok());
    assert!((l(), l(), l(), l(), l(), l(), l(), l(), l(), l()).try_zip().is_ok());
    assert!((l(), l(), l(), l(), l(), l(), l(), l(), l(), l(), l()).try_zip().is_ok());
    assert!((l(), l(), l(), l(), l(), l(), l(), l(), l(), l(), l(), l()).try_zip().is_ok());
    assert!((l(), l(), l(), l(), l(), l(), l(), l(), l(), l(), l(), l(), l()).try_zip().is_ok());
}
