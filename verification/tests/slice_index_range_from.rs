use miniunchecked::SliceExt;

#[test]
fn index_range_from_get_unchecked_dbg_success() {
    let slice = [2, 3, 4];

    let do_test = |idx: std::ops::RangeFrom<usize>, res: &[i32]| {
        assert_eq!(slice.get_unchecked_dbg(idx.clone()), Ok(res));
        assert_eq!(slice.get(idx.clone()), Some(res));
        assert_eq!(&slice[idx.clone()], res);
    };

    do_test(0.., &[2, 3, 4]);
    do_test(1.., &[3, 4]);
    do_test(2.., &[4]);
    do_test(3.., &[]);
}

#[test]
fn index_range_from_get_unchecked_dbg_failure() {
    let slice = [2, 3, 4];
    assert!(slice.get(4..).is_none());
    assert_eq!(
        slice.get_unchecked_dbg(4..).unwrap_err(),
        "range start index 4 out of range for slice of length 3"
    );
}

#[test]
fn index_range_from_get_unchecked_dbg_msg_failure() {
    let slice = [2, 3, 4];
    assert!(slice.get(4..).is_none());
    assert_eq!(
        slice.get_unchecked_dbg_msg(4.., "invalid range").unwrap_err(),
        "range start index 4 out of range for slice of length 3: invalid range"
    );
}

#[test]
fn index_range_from_get_unchecked_mut_dbg_success() {
    let mut slice = [2, 3, 4];

    let mut do_test = |idx: std::ops::RangeFrom<usize>, res: &mut [i32]| {
        assert_eq!(slice.get_unchecked_mut_dbg(idx.clone()), Ok(&mut *res));
        assert_eq!(slice.get_mut(idx.clone()), Some(res));
    };

    do_test(0.., &mut [2, 3, 4]);
    do_test(1.., &mut [3, 4]);
    do_test(2.., &mut [4]);
    do_test(3.., &mut []);
}

#[test]
fn index_range_from_get_unchecked_mut_dbg_failure() {
    let mut slice = [2, 3, 4];
    assert!(slice.get_mut(4..).is_none());
    assert_eq!(
        slice.get_unchecked_mut_dbg(4..).unwrap_err(),
        "range start index 4 out of range for slice of length 3"
    );
}

#[test]
fn index_range_from_get_unchecked_mut_dbg_msg_failure() {
    let mut slice = [2, 3, 4];
    assert!(slice.get_mut(4..).is_none());
    assert_eq!(
        slice.get_unchecked_mut_dbg_msg(4.., "invalid range").unwrap_err(),
        "range start index 4 out of range for slice of length 3: invalid range"
    );
}
