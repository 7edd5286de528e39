use miniunchecked::SliceExt;

#[test]
fn index_usize_get_unchecked_dbg_success() {
    let slice = [2, 3, 4];

    let do_test = |idx: usize, res: &i32| {
        assert_eq!(slice.get_unchecked_dbg(idx), Ok(res));
        assert_eq!(slice.get(idx), Some(res));
        assert_eq!(&slice[idx], res);
    };

    do_test(0, &2);
    do_test(1, &3);
    do_test(2, &4);
}

#[test]
fn index_usize_get_unchecked_dbg_failure() {
    let slice = [2, 3, 4];
    assert!(slice.get(3).is_none());
    assert_eq!(
        slice.get_unchecked_dbg(3).unwrap_err(),
        "index out of bounds: the len is 3 but the index is 3"
    );
}

#[test]
fn index_usize_get_unchecked_dbg_msg_failure() {
    let slice = [2, 3, 4];
    assert!(slice.get(3).is_none());
    assert_eq!(
        slice.get_unchecked_dbg_msg(3, "invalid index").unwrap_err(),
        "index out of bounds: the len is 3 but the index is 3: invalid index"
    );
}

#[test]
fn index_usize_get_unchecked_mut_dbg_success() {
    let mut slice = [2, 3, 4];

    let mut do_test = |idx: usize, res: &mut i32| {
        assert_eq!(slice.get_unchecked_mut_dbg(idx), Ok(&mut *res));
        assert_eq!(slice.get_mut(idx), Some(res));
    };

    do_test(0, &mut 2);
    do_test(1, &mut 3);
    do_test(2, &mut 4);
}

#[test]
fn index_usize_get_unchecked_mut_dbg_failure() {
    let mut slice = [2, 3, 4];
    assert!(slice.get_mut(3).is_none());
    assert_eq!(
        slice.get_unchecked_mut_dbg(3).unwrap_err(),
        "index out of bounds: the len is 3 but the index is 3"
    );
}

#[test]
fn slice_get_unchecked_mut_dbg_msg_failure() {
    let mut slice = [2, 3, 4];
    assert!(slice.get_mut(3).is_none());
    assert_eq!(
        slice.get_unchecked_mut_dbg_msg(3, "invalid index").unwrap_err(),
        "index out of bounds: the len is 3 but the index is 3: invalid index"
    );
}
