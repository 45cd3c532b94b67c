//! Server change tokens: opaque archived bytes that mark a point in a change feed.
use vstd::prelude::*;

use crate::payload::CKServerChangeTokenPayload;
use crate::record::copy_bytes;

verus! {

/// Mirrors `CKServerChangeToken`; its view is the archived bytes.
#[derive(Debug, PartialEq, Eq, Hash)]
pub struct CKServerChangeToken {
    archived_data: Vec<u8>,
}

impl View for CKServerChangeToken {
    type V = Seq<u8>;

    closed spec fn view(&self) -> Seq<u8> {
        self.archived_data@
    }
}

impl Clone for CKServerChangeToken {
    fn clone(&self) -> (r: Self)
        ensures
            r@ == self@,
    {
        CKServerChangeToken { archived_data: copy_bytes(&self.archived_data) }
    }
}

impl CKServerChangeToken {
    /// The token that these archived bytes encode.
    pub fn from_archived_data(archived_data: Vec<u8>) -> (r: Self)
        ensures
            r@ == archived_data@,
    {
        Self { archived_data }
    }

    /// The archived bytes of the token.
    pub fn archived_data(&self) -> (r: &[u8])
        ensures
            r@ == self@,
    {
        self.archived_data.as_slice()
    }

    /// The token that a bridge payload stands for.
    pub fn from_payload(payload: CKServerChangeTokenPayload) -> (r: Self)
        ensures
            r@ == payload.archived_data@,
    {
        Self::from_archived_data(payload.archived_data)
    }

    /// The bridge payload of the token.
    pub fn to_payload(&self) -> (r: CKServerChangeTokenPayload)
        ensures
            r.archived_data@ == self@,
    {
        CKServerChangeTokenPayload { archived_data: copy_bytes(&self.archived_data) }
    }
}

} // verus!
