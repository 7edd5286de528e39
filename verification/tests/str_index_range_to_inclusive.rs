use miniunchecked::StrExt;

#[test]
fn str_index_range_to_inclusive_get_unchecked_dbg_success() {
    let string = "föo";

    let do_test = |idx: std::ops::RangeToInclusive<usize>, res: &str| {
        assert_eq!(string.get_unchecked_dbg(idx), Ok(res));
        assert_eq!(string.get(idx), Some(res));
        assert_eq!(&string[idx], res);
    };

    do_test(..=0, "f");
    do_test(..=2, "fö");
    do_test(..=3, "föo");
}

#[test]
fn str_index_range_to_inclusive_get_unchecked_dbg_usize_overflow() {
    let string = "föo";
    assert_eq!(
        string.get_unchecked_dbg(..=usize::MAX).unwrap_err(),
        "attempted to index str up to maximum usize"
    );
}

#[test]
fn str_index_range_to_inclusive_get_unchecked_dbg_failure_oob() {
    let string = "föo";
    assert!(string.get(..=4).is_none());
    assert_eq!(
        string.get_unchecked_dbg(..=4).unwrap_err(),
        "byte index 5 is out of bounds of 'föo'"
    );
}

#[test]
fn str_index_range_to_inclusive_get_unchecked_dbg_failure_character_boundary() {
    let string = "föo";
    assert!(string.get(..=1).is_none());
    assert_eq!(
        string.get_unchecked_dbg(..=1).unwrap_err(),
        "byte index 2 is not a char boundary; it is inside 'ö' (bytes 1..3) of 'föo'"
    );
}

#[test]
fn str_index_range_to_inclusive_get_unchecked_dbg_msg_failure_oob() {
    let string = "föo";
    assert!(string.get(..=4).is_none());
    assert_eq!(
        string.get_unchecked_dbg_msg(..=4, "invalid range").unwrap_err(),
        "byte index 5 is out of bounds of 'föo': invalid range"
    );
}

#[test]
fn str_index_range_to_inclusive_get_unchecked_dbg_msg_failure_character_boundary() {
    let string = "föo";
    assert!(string.get(..=1).is_none());
    assert_eq!(
        string.get_unchecked_dbg_msg(..=1, "invalid range").unwrap_err(),
        "byte index 2 is not a char boundary; it is inside 'ö' (bytes 1..3) of 'föo': invalid range"
    );
}

#[test]
fn str_index_range_to_inclusive_get_unchecked_mut_dbg_success() {
    let mut string = "föo".to_string();
    let string = string.as_mut_str();

    let mut do_test = |idx: std::ops::RangeToInclusive<usize>, res: &mut str| {
        assert_eq!(string.get_unchecked_mut_dbg(idx.clone()), Ok(&mut *res));
        assert_eq!(string.get_mut(idx.clone()), Some(&mut *res));
        assert_eq!(&mut string[idx.clone()], res);
    };

    do_test(..=0, "f".to_string().as_mut_str());
    do_test(..=2, "fö".to_string().as_mut_str());
    do_test(..=3, "föo".to_string().as_mut_str());
}

#[test]
fn str_index_range_to_inclusive_get_unchecked_mut_dbg_failure_oob() {
    let mut string = "föo".to_string();
    let string = string.as_mut_str();
    assert!(string.get_mut(..=4).is_none());
    assert_eq!(
        string.get_unchecked_mut_dbg(..=4).unwrap_err(),
        "byte index 5 is out of bounds of 'föo'"
    );
}

#[test]
fn str_index_range_to_inclusive_get_unchecked_mut_dbg_failure_character_boundary() {
    let mut string = "föo".to_string();
    let string = string.as_mut_str();
    assert!(string.get_mut(..=1).is_none());
    assert_eq!(
        string.get_unchecked_mut_dbg(..=1).unwrap_err(),
        "byte index 2 is not a char boundary; it is inside 'ö' (bytes 1..3) of 'föo'"
    );
}

#[test]
fn str_index_range_to_inclusive_get_unchecked_mut_dbg_msg_failure_oob() {
    let mut string = "föo".to_string();
    let string = string.as_mut_str();
    assert!(string.get_mut(..=4).is_none());
    assert_eq!(
        string.get_unchecked_mut_dbg_msg(..=4, "invalid range").unwrap_err(),
        "byte index 5 is out of bounds of 'föo': invalid range"
    );
}

#[test]
fn str_index_range_to_inclusive_get_unchecked_mut_dbg_msg_failure_character_boundary() {
    let mut string = "föo".to_string();
    let string = string.as_mut_str();
    assert!(string.get_mut(..=1).is_none());
    assert_eq!(
        string.get_unchecked_mut_dbg_msg(..=1, "invalid range").unwrap_err(),
        "byte index 2 is not a char boundary; it is inside 'ö' (bytes 1..3) of 'föo': invalid range"
    );
}
