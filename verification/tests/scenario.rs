use simd_zip::iters::SIMDRefIter;
use simd_zip::zip::{IntoSIMDZip, SIMDZippedIterable, SIMDZippedIterator, SIMDZippedObject};

fn add4(acc: [f64; 4], a: [f64; 4], b: [f64; 4]) -> [f64; 4] {
    let mut out = acc;
    for i in 0..4 {
        out[i] = out[i] + a[i] + b[i];
    }
    out
}

fn add8(acc: [f64; 8], a: [f64; 8], b: [f64; 8]) -> [f64; 8] {
    let mut out = acc;
    for i in 0..8 {
        out[i] = out[i] + a[i] + b[i];
    }
    out
}

#[test]
fn width_four_hands_out_25_full_vectors_and_no_tail() {
    let twos = [2.0f64; 100];
    let threes = [3.0f64; 100];
    let a = SIMDRefIter::<f64, 4>::new(&twos[..], [0.0; 4]);
    let b = SIMDRefIter::<f64, 4>::new(&threes[..], [0.0; 4]);
    let mut z = (a, b).zip();
    assert_eq!(z.width(), 4);
    assert_eq!(z.scalar_len(), 100);
    assert_eq!(z.vector_len(), 25);
    let mut calls = 0;
    while let Some((x, y)) = z.next() {
        assert_eq!(x, [2.0; 4]);
        assert_eq!(y, [3.0; 4]);
        calls += 1;
    }
    assert_eq!(calls, 25);
    assert_eq!(z.scalar_pos(), 100);
    assert!(z.end().is_none());
}

#[test]
fn width_four_reduce_leaves_125_in_every_lane() {
    let twos = [2.0f64; 100];
    let threes = [3.0f64; 100];
    let a = SIMDRefIter::<f64, 4>::new(&twos[..], [0.0; 4]);
    let b = SIMDRefIter::<f64, 4>::new(&threes[..], [0.0; 4]);
    let mut z = (a, b).zip();
    let sum = z.simd_reduce([0.0f64; 4], |acc, (x, y)| add4(acc, x, y));
    assert_eq!(sum, [125.0; 4]);
    assert_eq!(z.scalar_pos(), 100);
}

#[test]
fn width_eight_hands_out_12_full_vectors_and_a_tail_of_four() {
    let twos = [2.0f64; 100];
    let threes = [3.0f64; 100];
    let a = SIMDRefIter::<f64, 8>::new(&twos[..], [0.0; 8]);
    let b = SIMDRefIter::<f64, 8>::new(&threes[..], [0.0; 8]);
    let mut z = (a, b).zip();
    assert_eq!(z.vector_len(), 12);
    let mut calls = 0;
    while let Some((x, y)) = z.next() {
        assert_eq!(x, [2.0; 8]);
        assert_eq!(y, [3.0; 8]);
        calls += 1;
    }
    assert_eq!(calls, 12);
    assert_eq!(z.scalar_pos(), 96);
    let ((x, y), n) = z.end().unwrap();
    assert_eq!(n, 4);
    assert_eq!(x, [2.0, 2.0, 2.0, 2.0, 0.0, 0.0, 0.0, 0.0]);
    assert_eq!(y, [3.0, 3.0, 3.0, 3.0, 0.0, 0.0, 0.0, 0.0]);
    assert_eq!(z.scalar_pos(), 100);
    assert!(z.end().is_none());
    assert!(z.next().is_none());
}

#[test]
fn width_eight_reduce_leaves_less_in_the_padded_lanes() {
    let twos = [2.0f64; 100];
    let threes = [3.0f64; 100];
    let a = SIMDRefIter::<f64, 8>::new(&twos[..], [0.0; 8]);
    let b = SIMDRefIter::<f64, 8>::new(&threes[..], [0.0; 8]);
    let mut z = (a, b).zip();
    let sum = z.simd_reduce([0.0f64; 8], |acc, (x, y)| add8(acc, x, y));
    assert_eq!(sum, [65.0, 65.0, 65.0, 65.0, 60.0, 60.0, 60.0, 60.0]);
}

#[test]
fn reduce_of_one_value_over_two_widths() {
    let twos = [2.0f32; 100];
    let zeros = [0.0f32; 100];
    let a = SIMDRefIter::<f32, 4>::new(&twos[..], [0.0; 4]);
    let b = SIMDRefIter::<f32, 4>::new(&zeros[..], [0.0; 4]);
    let narrow = (a, b).zip().simd_reduce([0.0f32; 4], |acc, (x, _)| {
        let mut out = acc;
        for i in 0..4 {
            out[i] += x[i];
        }
        out
    });
    assert_eq!(narrow, [50.0; 4]);
    let a = SIMDRefIter::<f32, 8>::new(&twos[..], [0.0; 8]);
    let b = SIMDRefIter::<f32, 8>::new(&zeros[..], [0.0; 8]);
    let wide = (a, b).zip().simd_reduce([0.0f32; 8], |acc, (x, _)| {
        let mut out = acc;
        for i in 0..8 {
            out[i] += x[i];
        }
        out
    });
    assert_eq!(wide, [26.0, 26.0, 26.0, 26.0, 24.0, 24.0, 24.0, 24.0]);
}

#[test]
fn padding_comes_from_each_members_own_default() {
    let left = [1i32, 2, 3, 4, 5, 6];
    let right = [10i32, 20, 30, 40, 50, 60];
    let a = SIMDRefIter::<i32, 4>::new(&left[..], [-1; 4]);
    let b = SIMDRefIter::<i32, 4>::new(&right[..], [7, 8, 9, 10]);
    let mut z = (a, b).zip();
    assert_eq!(z.next(), Some(([1, 2, 3, 4], [10, 20, 30, 40])));
    assert_eq!(z.next(), None);
    assert_eq!(z.end(), Some((([5, 6, -1, -1], [50, 60, 9, 10]), 2)));
    assert_eq!(z.end(), None);
}
