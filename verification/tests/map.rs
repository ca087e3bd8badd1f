use simd_zip::iters::SIMDRefIter;
use simd_zip::vecs::Packed;
use simd_zip::zip::{IntoSIMDZip, SIMDZippedIterable, SIMDZippedIterator, SIMDZippedObject};

#[test]
fn identity_map_hands_out_what_the_stream_hands_out() {
    let left: Vec<f64> = (0..11).map(|i| i as f64).collect();
    let right: Vec<f64> = (0..11).map(|i| (i * i) as f64).collect();
    let s = || {
        let a = SIMDRefIter::<f64, 4>::new(&left[..], [0.5; 4]);
        let b = SIMDRefIter::<f64, 4>::new(&right[..], [0.25; 4]);
        (a, b).zip()
    };
    let mut plain = s();
    let mut mapped = s().simd_map(|v| v);
    assert_eq!(mapped.scalar_len(), plain.scalar_len());
    assert_eq!(mapped.vector_len(), plain.vector_len());
    assert_eq!(mapped.width(), plain.width());
    loop {
        assert_eq!(mapped.scalar_pos(), plain.scalar_pos());
        let expected = plain.next();
        assert_eq!(mapped.next(), expected);
        if expected.is_none() {
            break;
        }
    }
    assert_eq!(mapped.scalar_pos(), 8);
    assert_eq!(mapped.end(), plain.end());
    assert_eq!(mapped.scalar_pos(), 11);
    assert_eq!(mapped.end(), None);
    assert_eq!(mapped.next(), None);
}

#[test]
fn map_applies_the_function_to_every_vector_tuple() {
    let left = [1i32, 2, 3, 4, 5, 6];
    let right = [10i32, 20, 30, 40, 50, 60];
    let a = SIMDRefIter::<i32, 4>::new(&left[..], [0; 4]);
    let b = SIMDRefIter::<i32, 4>::new(&right[..], [0; 4]);
    let mut m = (a, b).zip().simd_map(|(x, y)| [x[0] + y[0], x[1] + y[1], x[2] + y[2], x[3] + y[3]]);
    assert_eq!(m.next(), Some([11, 22, 33, 44]));
    assert_eq!(m.next(), None);
    assert_eq!(m.end(), Some(([55, 66, 0, 0], 2)));
    assert_eq!(m.end(), None);
}

#[test]
fn map_counts_the_valid_lanes_of_a_tail_in_its_own_scalars() {
    let left = [1u8; 7];
    let right = [2u8; 7];
    let s = || {
        let a = SIMDRefIter::<u8, 8>::new(&left[..], [0; 8]);
        let b = SIMDRefIter::<u8, 8>::new(&right[..], [0; 8]);
        (a, b).zip()
    };
    let mut same = s().simd_map(|(x, _)| x);
    assert_eq!(same.size(), 1);
    assert_eq!(same.end(), Some(([1, 1, 1, 1, 1, 1, 1, 0], 7)));
    let mut wider = s().simd_map(|(x, y)| [x[0] as u16 + y[0] as u16; 4]);
    assert_eq!(wider.size(), 2);
    assert_eq!(wider.end(), Some(([3u16; 4], 3)));
    let mut widest = s().simd_map(|(x, _)| [x[0] as u32, x[7] as u32]);
    assert_eq!(widest.size(), 4);
    assert_eq!(widest.end(), Some(([1u32, 0], 1)));
    let wide = [5u32; 3];
    let a = SIMDRefIter::<u32, 4>::new(&wide[..], [0; 4]);
    let b = SIMDRefIter::<u32, 4>::new(&wide[..], [0; 4]);
    let mut narrower = (a, b).zip().simd_map(|(x, _)| [x[0] as u8; 16]);
    assert_eq!(narrower.size(), 1);
    assert_eq!(narrower.end(), Some(([5u8; 16], 12)));
}

#[test]
fn map_default_is_the_neutral_value_of_the_result_type() {
    let left = [1i32; 4];
    let right = [2i32; 4];
    let a = SIMDRefIter::<i32, 4>::new(&left[..], [9; 4]);
    let b = SIMDRefIter::<i32, 4>::new(&right[..], [9; 4]);
    let z = (a, b).zip();
    assert_eq!(z.default(), ([9; 4], [9; 4]));
    let mut calls = 0;
    let m = z.simd_map(|(x, _)| {
        calls += 1;
        [x[0] as f32 + 1.0; 2]
    });
    assert_eq!(m.default(), [0.0f32; 2]);
    drop(m);
    assert_eq!(calls, 0);
}

#[test]
fn map_stands_where_the_wrapped_stream_stands() {
    let left = [1i32; 10];
    let right = [2i32; 10];
    let a = SIMDRefIter::<i32, 4>::new(&left[..], [0; 4]);
    let b = SIMDRefIter::<i32, 4>::new(&right[..], [0; 4]);
    let mut m = (a, b).zip().simd_map(|(x, _)| x);
    assert_eq!(m.len(), 10);
    assert_eq!(m.scalar_len(), 10);
    assert_eq!(m.vector_len(), 2);
    assert_eq!(m.width(), 4);
    assert_eq!(m.scalar_pos(), 0);
    m.advance(4);
    assert_eq!(m.scalar_pos(), 4);
    assert_eq!(m.vector_pos(), 1);
    assert!(m.next().is_some());
    assert_eq!(m.scalar_pos(), 8);
    m.finalize();
    assert_eq!(m.scalar_pos(), 10);
    assert_eq!(m.next(), None);
    assert_eq!(m.end(), None);
}

#[test]
fn a_map_can_be_mapped_and_reduced() {
    let left: Vec<i64> = (1..=10).collect();
    let right: Vec<i64> = (1..=10).map(|i| i * 10).collect();
    let a = SIMDRefIter::<i64, 4>::new(&left[..], [0; 4]);
    let b = SIMDRefIter::<i64, 4>::new(&right[..], [0; 4]);
    let sums = (a, b).zip().simd_map(|(x, y)| {
        let mut out = [0i64; 4];
        for i in 0..4 {
            out[i] = x[i] + y[i];
        }
        out
    });
    let mut doubled = sums.simd_map(|v| [v[0] * 2, v[1] * 2, v[2] * 2, v[3] * 2]);
    let total = doubled.simd_reduce(0i64, |acc, v| acc + v.iter().sum::<i64>());
    assert_eq!(total, 2 * (55 + 550));
    assert_eq!(doubled.scalar_pos(), 10);
}

#[test]
fn a_map_can_be_driven_by_do_each() {
    let left = [3u16; 6];
    let right = [4u16; 6];
    let a = SIMDRefIter::<u16, 4>::new(&left[..], [0; 4]);
    let b = SIMDRefIter::<u16, 4>::new(&right[..], [0; 4]);
    let mut m = (a, b).zip().simd_map(|(x, y)| [x[0] * y[0], x[1] * y[1], x[2] * y[2], x[3] * y[3]]);
    let mut seen = Vec::new();
    m.simd_do_each(|v| seen.push(v));
    assert_eq!(seen, vec![[12u16; 4], [12, 12, 0, 0]]);
}

#[test]
fn arrays_and_tuples_of_arrays_have_a_neutral_value_and_a_scalar_size() {
    assert_eq!(<[i32; 4] as Packed>::default(), [0; 4]);
    assert_eq!(<[f64; 2] as Packed>::default(), [0.0; 2]);
    assert_eq!(<[u8; 16] as Packed>::size(), 1);
    assert_eq!(<[u16; 8] as Packed>::size(), 2);
    assert_eq!(<[f32; 4] as Packed>::size(), 4);
    assert_eq!(<[f64; 2] as Packed>::size(), 8);
    assert_eq!(<([u8; 4], [u32; 4]) as Packed>::size(), 1);
    assert_eq!(<([u32; 4], [u8; 4]) as Packed>::size(), 4);
    assert_eq!(<([u8; 2], [i32; 2]) as Packed>::default(), ([0; 2], [0; 2]));
    assert_eq!(<([u8; 1], [i8; 1], [u16; 1]) as Packed>::default(), ([0], [0], [0]));
}
