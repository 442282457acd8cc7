use vstd::prelude::*;

use crate::errors::Error;

verus! {

/// The response envelope of the service: `ok` with the data on success,
/// `ok == false` with a readable message and no data on any failure. No
/// partial data ever rides along with an error.
pub struct APIResult<T> {
    pub ok: bool,
    pub err: Option<String>,
    pub data: Option<T>,
}

impl<T> APIResult<T> {
    /// Wraps the outcome of a request cycle in the envelope.
    pub fn from_result(result: Result<T, Error>) -> (r: APIResult<T>)
        ensures
            result matches Ok(v) ==> r.ok && r.err is None && r.data == Some(v),
            result matches Err(e) ==> !r.ok && r.data is None && (r.err matches Some(m)
                && m@ == e@.spec_message()),
    {
        match result {
            Ok(v) => APIResult { ok: true, err: None, data: Some(v) },
            Err(e) => APIResult { ok: false, err: Some(e.message()), data: None },
        }
    }
}

} // verus!
