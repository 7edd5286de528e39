use miniunchecked::ResultExt;

#[test]
fn result_unwrap_unchecked_dbg_success() {
    let x: Result<i32, ()> = Ok(7);
    assert_eq!(x.unwrap_unchecked_dbg(), Ok(7))
}

#[test]
fn result_unwrap_unchecked_dbg_failure() {
    let x: Result<i32, ()> = Err(());
    assert_eq!(
        x.unwrap_unchecked_dbg().unwrap_err(),
        "called `Result::unwrap()` on an `Err` value"
    );
}

#[test]
fn result_unwrap_unchecked_dbg_msg_failure() {
    let x: Result<i32, ()> = Err(());
    assert_eq!(
        x.unwrap_unchecked_dbg_msg("missing value").unwrap_err(),
        "called `Result::unwrap()` on an `Err` value: missing value"
    );
}

#[test]
fn result_unwrap_unchecked_dbg_fmt_failure() {
    let x: Result<i32, ()> = Err(());
    assert_eq!(
        x.unwrap_unchecked_dbg_fmt(&format!("missing value (expected {})", 7)).unwrap_err(),
        "called `Result::unwrap()` on an `Err` value: missing value (expected 7)"
    );
}

#[test]
fn result_unwrap_with_message_keeps_the_value() {
    let x: Result<&str, i32> = Ok("kept");
    assert_eq!(x.unwrap_unchecked_dbg_msg("unused"), Ok("kept"));
    let y: Result<u8, String> = Ok(3);
    assert_eq!(y.unwrap_unchecked_dbg_fmt("unused"), Ok(3));
}

#[test]
fn result_failure_does_not_write_the_error() {
    let x: Result<i32, &str> = Err("the error itself");
    assert_eq!(
        x.unwrap_unchecked_dbg().unwrap_err(),
        "called `Result::unwrap()` on an `Err` value"
    );
}
