use simd_zip::iters::SIMDRefIter;
use simd_zip::zip::{IntoSIMDZip, SIMDZippedIterable, SIMDZippedIterator, SIMDZippedObject};

#[test]
fn do_each_sees_every_scalar_of_every_member_once_and_in_order() {
    let left: Vec<i32> = (0..23).collect();
    let right: Vec<i32> = (100..123).collect();
    let third: Vec<i32> = (-23..0).collect();
    let a = SIMDRefIter::<i32, 4>::new(&left[..], [-1; 4]);
    let b = SIMDRefIter::<i32, 4>::new(&right[..], [-2; 4]);
    let c = SIMDRefIter::<i32, 4>::new(&third[..], [-3; 4]);
    let mut z = (a, b, c).zip();
    let mut seen = (Vec::new(), Vec::new(), Vec::new());
    let mut calls = 0;
    z.simd_do_each(|(x, y, w)| {
        seen.0.extend_from_slice(&x);
        seen.1.extend_from_slice(&y);
        seen.2.extend_from_slice(&w);
        calls += 1;
    });
    assert_eq!(calls, 6);
    assert_eq!(z.scalar_pos(), 23);
    assert_eq!(&seen.0[..23], &left[..]);
    assert_eq!(&seen.1[..23], &right[..]);
    assert_eq!(&seen.2[..23], &third[..]);
    assert_eq!(&seen.0[23..], &[-1]);
    assert_eq!(&seen.1[23..], &[-2]);
    assert_eq!(&seen.2[23..], &[-3]);
}

#[test]
fn do_each_over_a_length_that_divides_sees_no_padding() {
    let left: Vec<u8> = (0..12).collect();
    let right: Vec<u8> = (50..62).collect();
    let a = SIMDRefIter::<u8, 4>::new(&left[..], [255; 4]);
    let b = SIMDRefIter::<u8, 4>::new(&right[..], [255; 4]);
    let mut z = (a, b).zip();
    let mut seen = (Vec::new(), Vec::new());
    z.simd_do_each(|(x, y)| {
        seen.0.extend_from_slice(&x);
        seen.1.extend_from_slice(&y);
    });
    assert_eq!(seen.0, left);
    assert_eq!(seen.1, right);
}

#[test]
fn do_each_over_empty_streams_calls_nothing() {
    let none: [u8; 0] = [];
    let a = SIMDRefIter::<u8, 4>::new(&none[..], [0; 4]);
    let b = SIMDRefIter::<u8, 4>::new(&none[..], [0; 4]);
    let mut calls = 0;
    (a, b).zip().simd_do_each(|_| calls += 1);
    assert_eq!(calls, 0);
}

#[test]
fn valid_lane_counts_add_up_to_the_length() {
    for len in 0..30usize {
        let left = vec![1u32; len];
        let right = vec![2u32; len];
        let a = SIMDRefIter::<u32, 4>::new(&left[..], [0; 4]);
        let b = SIMDRefIter::<u32, 4>::new(&right[..], [0; 4]);
        let mut z = (a, b).zip();
        let mut lanes = 0;
        while let Some(_) = z.next() {
            lanes += z.width();
        }
        if let Some((_, n)) = z.end() {
            lanes += n;
        }
        assert_eq!(lanes, len);
    }
}

#[test]
fn do_each_starts_where_the_zip_stands() {
    let left: Vec<i16> = (0..10).collect();
    let right: Vec<i16> = (10..20).collect();
    let a = SIMDRefIter::<i16, 4>::new(&left[..], [0; 4]);
    let b = SIMDRefIter::<i16, 4>::new(&right[..], [0; 4]);
    let mut z = (a, b).zip();
    z.advance(3);
    let mut seen = Vec::new();
    z.simd_do_each(|v| seen.push(v));
    assert_eq!(seen, vec![([3, 4, 5, 6], [13, 14, 15, 16]), ([7, 8, 9, 0], [17, 18, 19, 0])]);
}

#[test]
fn reduce_threads_the_accumulator_in_order() {
    let left: Vec<u64> = (1..=10).collect();
    let right: Vec<u64> = (11..=20).collect();
    let a = SIMDRefIter::<u64, 4>::new(&left[..], [0; 4]);
    let b = SIMDRefIter::<u64, 4>::new(&right[..], [0; 4]);
    let mut z = (a, b).zip();
    let trace = z.simd_reduce(Vec::new(), |mut acc: Vec<u64>, (x, y)| {
        acc.push(x[0] * 100 + y[0]);
        acc
    });
    assert_eq!(trace, vec![111, 515, 919]);
    let a = SIMDRefIter::<u64, 4>::new(&left[..], [0; 4]);
    let b = SIMDRefIter::<u64, 4>::new(&right[..], [0; 4]);
    let sum = (a, b).zip().simd_reduce(7u64, |acc, (x, y)| {
        acc + x.iter().sum::<u64>() + y.iter().sum::<u64>()
    });
    assert_eq!(sum, 7 + 55 + 155);
}

#[test]
fn reduce_over_empty_streams_hands_back_the_start() {
    let none: [u8; 0] = [];
    let a = SIMDRefIter::<u8, 4>::new(&none[..], [0; 4]);
    let b = SIMDRefIter::<u8, 4>::new(&none[..], [0; 4]);
    assert_eq!((a, b).zip().simd_reduce(42u32, |_, _| 0), 42);
}
