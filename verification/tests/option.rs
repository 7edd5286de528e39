use miniunchecked::OptionExt;

fn returns_an_option(val: i32) -> Option<u8> {
    u8::try_from(val).ok()
}

#[test]
fn option_unwrap_unchecked_dbg_success() {
    let x = Some(7);
    assert_eq!(x.unwrap_unchecked_dbg(), Ok(7))
}

#[test]
fn option_unwrap_unchecked_dbg_failure() {
    let x: Option<i32> = None;
    assert_eq!(
        x.unwrap_unchecked_dbg().unwrap_err(),
        "called `Option::unwrap()` on a `None` value"
    );
}

#[test]
fn unwrap_unchecked_dbg_macro_failure() {
    assert_eq!(returns_an_option(255).unwrap_unchecked_dbg_msg("this should succeed"), Ok(255));
    assert_eq!(
        returns_an_option(-7).unwrap_unchecked_dbg().unwrap_err(),
        "called `Option::unwrap()` on a `None` value"
    );
}

#[test]
fn option_unwrap_unchecked_dbg_msg_failure() {
    let x: Option<i32> = None;
    assert_eq!(
        x.unwrap_unchecked_dbg_msg("missing value").unwrap_err(),
        "called `Option::unwrap()` on a `None` value: missing value"
    );
}

#[test]
fn unwrap_unchecked_dbg_msg_macro_failure() {
    assert_eq!(returns_an_option(255).unwrap_unchecked_dbg_msg("this should succeed"), Ok(255));
    assert_eq!(
        returns_an_option(-7).unwrap_unchecked_dbg_msg("missing value").unwrap_err(),
        "called `Option::unwrap()` on a `None` value: missing value"
    );
}

#[test]
fn option_unwrap_unchecked_dbg_fmt_failure() {
    let x: Option<i32> = None;
    assert_eq!(
        x.unwrap_unchecked_dbg_fmt(&format!("missing value (expected {})", 7)).unwrap_err(),
        "called `Option::unwrap()` on a `None` value: missing value (expected 7)"
    );
}

#[test]
fn unwrap_unchecked_dbg_fmt_macro_failure() {
    assert_eq!(returns_an_option(255).unwrap_unchecked_dbg_msg("this should succeed"), Ok(255));
    assert_eq!(
        returns_an_option(-7)
            .unwrap_unchecked_dbg_fmt(&format!("missing value (expected {})", -7))
            .unwrap_err(),
        "called `Option::unwrap()` on a `None` value: missing value (expected -7)"
    );
}

#[test]
fn option_unwrap_with_message_keeps_the_value() {
    assert_eq!(Some("kept").unwrap_unchecked_dbg_msg("unused"), Ok("kept"));
    assert_eq!(Some(vec![1, 2]).unwrap_unchecked_dbg_fmt("unused"), Ok(vec![1, 2]));
}

#[test]
fn option_failure_message_with_empty_note() {
    assert_eq!(
        miniunchecked::option::unwrap_failure_message(Some("")),
        "called `Option::unwrap()` on a `None` value: "
    );
    assert_eq!(
        miniunchecked::option::unwrap_failure_message(None),
        "called `Option::unwrap()` on a `None` value"
    );
}
