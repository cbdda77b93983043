use split_hub::pixels::transpose;

#[test]
fn swaps_red_and_blue() {
    let src = [[1u8, 2, 3, 4], [10, 20, 30, 40]];
    let mut dst = [[0u8; 4]; 2];
    transpose(&mut dst, &src);
    assert_eq!(dst, [[3, 2, 1, 4], [30, 20, 10, 40]]);
}

#[test]
fn stops_at_the_shorter_slice() {
    let src = [[1u8, 2, 3, 4]];
    let mut dst = [[9u8; 4]; 3];
    transpose(&mut dst, &src);
    assert_eq!(dst, [[3, 2, 1, 4], [9; 4], [9; 4]]);
    let src = vec![[5u8, 6, 7, 8]; 40];
    let mut dst = vec![[0u8; 4]; 33];
    transpose(&mut dst, &src);
    assert!(dst.iter().all(|p| *p == [7, 6, 5, 8]));
}

#[test]
fn empty_slices() {
    let src: [[u8; 4]; 0] = [];
    let mut dst: [[u8; 4]; 0] = [];
    transpose(&mut dst, &src);
    assert!(dst.is_empty());
}
