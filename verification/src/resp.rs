use vstd::prelude::*;

verus! {

/// The success envelope that the boundary returns to clients: a status code
/// and a result value.
#[derive(Clone, Debug)]
pub struct Resp<T> {
    pub code: i32,
    pub result: T,
}

impl<T> Resp<T> {
    pub fn new(_code: i32, _result: T) -> (r: Self)
        ensures
            r.code == _code,
            r.result == _result,
    {
        Resp { code: _code, result: _result }
    }
}

/// The failure envelope that the boundary returns to clients: a status code
/// and an optional error message.
#[derive(Clone, Debug)]
pub struct RespErr {
    pub code: i32,
    pub error: Option<String>,
}

impl RespErr {
    pub fn new(_code: i32, _error: Option<String>) -> (r: Self)
        ensures
            r.code == _code,
            r.error == _error,
    {
        RespErr { code: _code, error: _error }
    }
}

} // verus!
