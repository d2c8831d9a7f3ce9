use oss_store::resp::{Resp, RespErr};

#[test]
fn resp_new_keeps_fields() {
    let r = Resp::new(0, String::from("abc"));
    assert_eq!(r.code, 0);
    assert_eq!(r.result, "abc");
}

#[test]
fn resp_err_new_keeps_fields() {
    let e = RespErr::new(-1, Some(String::from("boom")));
    assert_eq!(e.code, -1);
    assert_eq!(e.error, Some(String::from("boom")));
    let e2 = RespErr::new(-1, None);
    assert_eq!(e2.error, None);
}
