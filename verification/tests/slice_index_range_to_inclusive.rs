use miniunchecked::SliceExt;

#[test]
fn index_range_to_inclusive_get_unchecked_dbg_success() {
    let slice = [2, 3, 4];

    let do_test = |idx: std::ops::RangeToInclusive<usize>, res: &[i32]| {
        assert_eq!(slice.get_unchecked_dbg(idx), Ok(res));
        assert_eq!(slice.get(idx), Some(res));
        assert_eq!(&slice[idx], res);
    };

    do_test(..=0, &[2]);
    do_test(..=1, &[2, 3]);
    do_test(..=2, &[2, 3, 4]);
}

#[test]
fn index_range_to_inclusive_get_unchecked_dbg_usize_overflow() {
    let slice = [2, 3, 4];
    assert_eq!(
        slice.get_unchecked_dbg(..=usize::MAX).unwrap_err(),
        "attempted to index sequence up to maximum representable index"
    );
}

#[test]
fn index_range_to_inclusive_get_unchecked_dbg_failure() {
    let slice = [2, 3, 4];
    assert!(slice.get(..=3).is_none());
    assert_eq!(
        slice.get_unchecked_dbg(..=3).unwrap_err(),
        "range end index 4 out of range for slice of length 3"
    );
}

#[test]
fn index_range_to_inclusive_get_unchecked_dbg_msg_failure() {
    let slice = [2, 3, 4];
    assert!(slice.get(..=3).is_none());
    assert_eq!(
        slice.get_unchecked_dbg_msg(..=3, "invalid range").unwrap_err(),
        "range end index 4 out of range for slice of length 3: invalid range"
    );
}

#[test]
fn index_range_to_inclusive_get_unchecked_mut_dbg_success() {
    let mut slice = [2, 3, 4];

    let mut do_test = |idx: std::ops::RangeToInclusive<usize>, res: &mut [i32]| {
        assert_eq!(slice.get_unchecked_mut_dbg(idx), Ok(&mut *res));
        assert_eq!(slice.get_mut(idx), Some(res));
    };

    do_test(..=0, &mut [2]);
    do_test(..=1, &mut [2, 3]);
    do_test(..=2, &mut [2, 3, 4]);
}

#[test]
fn index_range_to_inclusive_get_unchecked_mut_dbg_usize_overflow() {
    let mut slice = [2, 3, 4];
    assert_eq!(
        slice.get_unchecked_mut_dbg(..=usize::MAX).unwrap_err(),
        "attempted to index sequence up to maximum representable index"
    );
}

#[test]
fn index_range_to_inclusive_get_unchecked_mut_dbg_failure() {
    let mut slice = [2, 3, 4];
    assert!(slice.get_mut(..=3).is_none());
    assert_eq!(
        slice.get_unchecked_mut_dbg(..=3).unwrap_err(),
        "range end index 4 out of range for slice of length 3"
    );
}

#[test]
fn index_range_to_inclusive_get_unchecked_mut_dbg_msg_failure() {
    let mut slice = [2, 3, 4];
    assert!(slice.get_mut(..=3).is_none());
    assert_eq!(
        slice.get_unchecked_mut_dbg_msg(..=3, "invalid range").unwrap_err(),
        "range end index 4 out of range for slice of length 3: invalid range"
    );
}
