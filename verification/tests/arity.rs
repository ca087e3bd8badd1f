use simd_zip::iters::{SIMDIterator, SIMDRefIter};
use simd_zip::zip::{IntoSIMDZip, SIMDZippedIterable, SIMDZippedIterator, SIMDZippedObject};

fn column(k: i32) -> Vec<i32> {
    (0..6).map(|i| k * 100 + i).collect()
}

fn full(k: i32) -> [i32; 4] {
    [k * 100, k * 100 + 1, k * 100 + 2, k * 100 + 3]
}

fn tail(k: i32) -> [i32; 4] {
    [k * 100 + 4, k * 100 + 5, -k, -k]
}

#[test]
fn four_streams_of_four_types() {
    let bytes = [1u8, 2, 3];
    let words = [10u32, 20, 30];
    let longs = [-1i64, -2, -3];
    let floats = [0.5f32, 1.5, 2.5];
    let a = SIMDRefIter::<u8, 2>::new(&bytes[..], [0; 2]);
    let b = SIMDRefIter::<u32, 2>::new(&words[..], [0; 2]);
    let c = SIMDRefIter::<i64, 2>::new(&longs[..], [0; 2]);
    let d = SIMDRefIter::<f32, 2>::new(&floats[..], [9.0; 2]);
    let mut z = (a, b, c, d).zip();
    assert_eq!(z.size(), 1);
    assert_eq!(z.default(), ([0, 0], [0, 0], [0, 0], [9.0, 9.0]));
    assert_eq!(z.next(), Some(([1, 2], [10, 20], [-1, -2], [0.5, 1.5])));
    assert_eq!(z.next(), None);
    assert_eq!(z.end(), Some((([3, 0], [30, 0], [-3, 0], [2.5, 9.0]), 1)));
    assert_eq!(z.end(), None);
}

#[test]
fn five_to_eight_streams() {
    let cols: Vec<Vec<i32>> = (0..8).map(column).collect();
    let s = |k: usize| SIMDRefIter::<i32, 4>::new(&cols[k][..], [-(k as i32); 4]);
    let mut z = (s(0), s(1), s(2), s(3), s(4)).zip();
    assert_eq!(z.next(), Some((full(0), full(1), full(2), full(3), full(4))));
    assert_eq!(z.next(), None);
    assert_eq!(z.end(), Some(((tail(0), tail(1), tail(2), tail(3), tail(4)), 2)));
    let mut z = (s(0), s(1), s(2), s(3), s(4), s(5)).zip();
    assert_eq!(z.next(), Some((full(0), full(1), full(2), full(3), full(4), full(5))));
    assert_eq!(z.end(), Some(((tail(0), tail(1), tail(2), tail(3), tail(4), tail(5)), 2)));
    let mut z = (s(0), s(1), s(2), s(3), s(4), s(5), s(6)).zip();
    assert_eq!(z.next(), Some((full(0), full(1), full(2), full(3), full(4), full(5), full(6))));
    assert_eq!(
        z.end(),
        Some(((tail(0), tail(1), tail(2), tail(3), tail(4), tail(5), tail(6)), 2))
    );
    let mut z = (s(0), s(1), s(2), s(3), s(4), s(5), s(6), s(7)).zip();
    assert_eq!(
        z.next(),
        Some((full(0), full(1), full(2), full(3), full(4), full(5), full(6), full(7)))
    );
    assert_eq!(
        z.end(),
        Some(((tail(0), tail(1), tail(2), tail(3), tail(4), tail(5), tail(6), tail(7)), 2))
    );
    assert_eq!(z.scalar_pos(), 6);
}

#[test]
fn nine_to_twelve_streams() {
    let cols: Vec<Vec<i32>> = (0..12).map(column).collect();
    let s = |k: usize| SIMDRefIter::<i32, 4>::new(&cols[k][..], [-(k as i32); 4]);
    let mut z = (s(0), s(1), s(2), s(3), s(4), s(5), s(6), s(7), s(8)).zip();
    assert_eq!(
        z.next(),
        Some((full(0), full(1), full(2), full(3), full(4), full(5), full(6), full(7), full(8)))
    );
    assert_eq!(
        z.end(),
        Some(((tail(0), tail(1), tail(2), tail(3), tail(4), tail(5), tail(6), tail(7), tail(8)), 2))
    );
    let mut z = (s(0), s(1), s(2), s(3), s(4), s(5), s(6), s(7), s(8), s(9)).zip();
    assert_eq!(
        z.next(),
        Some((
            full(0),
            full(1),
            full(2),
            full(3),
            full(4),
            full(5),
            full(6),
            full(7),
            full(8),
            full(9)
        ))
    );
    assert_eq!(z.end().map(|(v, n)| (v.9, n)), Some((tail(9), 2)));
    let mut z = (s(0), s(1), s(2), s(3), s(4), s(5), s(6), s(7), s(8), s(9), s(10)).zip();
    assert_eq!(z.next().map(|v| (v.0, v.10)), Some((full(0), full(10))));
    assert_eq!(z.end().map(|(v, n)| (v.0, v.10, n)), Some((tail(0), tail(10), 2)));
    let mut z = (s(0), s(1), s(2), s(3), s(4), s(5), s(6), s(7), s(8), s(9), s(10), s(11)).zip();
    assert_eq!(
        z.next(),
        Some((
            full(0),
            full(1),
            full(2),
            full(3),
            full(4),
            full(5),
            full(6),
            full(7),
            full(8),
            full(9),
            full(10),
            full(11)
        ))
    );
    assert_eq!(z.end().map(|(v, n)| (v.5, v.11, n)), Some((tail(5), tail(11), 2)));
}

#[test]
fn thirteen_streams() {
    let cols: Vec<Vec<i32>> = (0..13).map(column).collect();
    let s = |k: usize| SIMDRefIter::<i32, 4>::new(&cols[k][..], [-(k as i32); 4]);
    let mut z =
        (s(0), s(1), s(2), s(3), s(4), s(5), s(6), s(7), s(8), s(9), s(10), s(11), s(12)).zip();
    assert_eq!(z.width(), 4);
    assert_eq!(z.scalar_len(), 6);
    z.advance(1);
    let v = z.next().unwrap();
    let members = [v.0, v.1, v.2, v.3, v.4, v.5, v.6, v.7, v.8, v.9, v.10, v.11, v.12];
    for (k, m) in members.iter().enumerate() {
        let k = k as i32;
        assert_eq!(*m, [k * 100 + 1, k * 100 + 2, k * 100 + 3, k * 100 + 4]);
    }
    let m = z.iters();
    let at = [
        m.0.scalar_pos(),
        m.1.scalar_pos(),
        m.2.scalar_pos(),
        m.3.scalar_pos(),
        m.4.scalar_pos(),
        m.5.scalar_pos(),
        m.6.scalar_pos(),
        m.7.scalar_pos(),
        m.8.scalar_pos(),
        m.9.scalar_pos(),
        m.10.scalar_pos(),
        m.11.scalar_pos(),
        m.12.scalar_pos(),
    ];
    assert_eq!(at, [5; 13]);
    assert!(z.next().is_none());
    let (v, n) = z.end().unwrap();
    assert_eq!(n, 1);
    assert_eq!(v.0, [5, 0, 0, 0]);
    assert_eq!(v.12, [1205, -12, -12, -12]);
    let d = z.default();
    assert_eq!(d.0, [0; 4]);
    assert_eq!(d.6, [-6; 4]);
    assert_eq!(d.12, [-12; 4]);
    let mut calls = 0;
    z.simd_do_each(|_| calls += 1);
    assert_eq!(calls, 0);
}

#[test]
fn thirteen_streams_reduced() {
    let cols: Vec<Vec<i32>> = (0..13).map(column).collect();
    let s = |k: usize| SIMDRefIter::<i32, 4>::new(&cols[k][..], [0; 4]);
    let mut z =
        (s(0), s(1), s(2), s(3), s(4), s(5), s(6), s(7), s(8), s(9), s(10), s(11), s(12)).zip();
    let sum = z.simd_reduce(0i32, |acc, v| {
        let members = [v.0, v.1, v.2, v.3, v.4, v.5, v.6, v.7, v.8, v.9, v.10, v.11, v.12];
        acc + members.iter().map(|m| m.iter().sum::<i32>()).sum::<i32>()
    });
    let expected: i32 = cols.iter().map(|c| c.iter().sum::<i32>()).sum();
    assert_eq!(sum, expected);
}
