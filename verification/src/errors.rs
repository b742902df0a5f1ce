//! Service-level failures. A failed round trip yields exactly one opaque
//! failure; no partial or stale page is ever returned in its place.

use vstd::prelude::*;

verus! {

/// A failure as the caller sees it: an HTTP-style status code and a
/// message.
#[derive(Debug)]
pub struct ServiceError {
    pub status: u16,
    pub message: String,
}

impl Clone for ServiceError {
    fn clone(&self) -> (res: Self)
        ensures
            res == *self,
    {
        ServiceError { status: self.status, message: self.message.clone() }
    }
}

impl ServiceError {
    /// A failure with the given status code and message.
    pub fn new(status: u16, message: String) -> (e: ServiceError)
        ensures
            e.status == status,
            e.message == message,
    {
        ServiceError { status, message }
    }

    /// The bare failure used where no better message exists.
    pub fn pls(status: u16) -> (e: ServiceError)
        ensures
            e.status == status,
            e.message@ == "L + Ratio"@,
    {
        ServiceError { status, message: "L + Ratio".to_owned() }
    }

    /// The failure's display line: a prefix picked by the status code,
    /// followed by the message.
    pub fn describe(&self) -> (s: String)
        ensures
            s@ == spec_describe_prefix(self.status) + self.message@,
    {
        let prefix: &str = if self.status == 400 {
            "i'm so sorry that you're stupid: "
        } else if self.status == 401 {
            "sir, i need to see your id: "
        } else if self.status == 404 {
            "out of stock. try again later: "
        } else {
            "internal server did an oopsie: "
        };
        prefix.to_owned().concat(self.message.as_str())
    }
}

/// The display prefix each status code selects.
pub open spec fn spec_describe_prefix(status: u16) -> Seq<char> {
    if status == 400 {
        "i'm so sorry that you're stupid: "@
    } else if status == 401 {
        "sir, i need to see your id: "@
    } else if status == 404 {
        "out of stock. try again later: "@
    } else {
        "internal server did an oopsie: "@
    }
}

/// What the store reported when a round trip failed.
#[derive(Debug)]
pub enum StoreError {
    /// The addressed row does not exist.
    NotFound,
    /// Any other failure, carried as the store's own words.
    Other(String),
}

/// Map a store failure onto the failure the caller sees: a missing row is
/// a 404, anything else an opaque 500 carrying the store's words.
pub fn service_error_of_store(e: StoreError) -> (r: ServiceError)
    ensures
        e is NotFound ==> r.status == 404 && r.message@ == "L + Ratio"@,
        e matches StoreError::Other(m) ==> r.status == 500 && r.message@ == m@,
{
    match e {
        StoreError::NotFound => ServiceError::pls(404),
        StoreError::Other(m) => ServiceError::new(500, m),
    }
}

} // verus!
