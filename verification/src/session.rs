//! The engine session: a state machine over one opened native handle.
//!
//! The native calls themselves (open, create-database, insert-from-file,
//! synchronize, search-from-file) block on the engine and are issued by the
//! unverified rim around this library; what each call reports — a status
//! code and, on success, its payload — is handed to the session as plain
//! values. The session makes every decision: it classifies the status,
//! encodes an inserted identifier, checks the search limit, and adapts a
//! result set, and those decisions are verified.
//!
//! A session value exists only between a successful open and its drop, and
//! every operation takes it by exclusive reference, so an operation on a
//! torn-down session is unconstructible and no two holders alias one native
//! handle. Dropping the session is teardown; by ownership it happens at most
//! once.

use vstd::prelude::*;

use crate::ident::encode;
use crate::ident::hex_encoded;
use crate::ident::ID_BYTES;
use crate::result_set::adapt;
use crate::result_set::spec_hit_id;
use crate::result_set::spec_hit_sim;
use crate::result_set::OtamaResult;
use crate::result_set::ResultSet;
use crate::status::map_status;
use crate::status::spec_map_status;
use crate::status::Error;
use crate::status::Status;
use crate::status::StatusCode;

verus! {

/// What a native search call came back with: a result set on the success
/// code, or the failure code reported.
#[derive(Debug)]
pub enum SearchReply {
    Hits(ResultSet),
    Failed(StatusCode),
}

/// An open engine session, owning one opened native handle exclusively.
#[derive(Debug)]
pub struct Otama {
    opened: bool,
}

impl Otama {
    /// Whether the session holds an opened handle. Every session that can be
    /// constructed does; operations require it and keep it.
    pub closed spec fn is_open(&self) -> bool {
        self.opened
    }

    /// Open a session. The caller issues the native open call against a
    /// configuration and hands the reported status here: the success code
    /// yields the session, and any other code fails with [`Error::Unknown`] —
    /// the native layer does not expose finer-grained open failures.
    pub fn new(open_status: StatusCode) -> (r: Result<Otama, Error>)
        ensures
            r is Ok <==> open_status == StatusCode::Okay,
            r is Ok ==> r->Ok_0.is_open(),
            r is Err ==> r->Err_0 == Error::Unknown,
    {
        match open_status {
            StatusCode::Okay => Ok(Otama { opened: true }),
            _ => Err(Error::Unknown),
        }
    }

    /// Classify what the native create-database call reported. Valid only on
    /// an open session; does not change its state.
    pub fn create_database(&mut self, status: StatusCode) -> (r: Result<Status, Error>)
        requires
            old(self).is_open(),
        ensures
            final(self).is_open(),
            r == spec_map_status(status),
    {
        map_status(status)
    }

    /// Finish a native insert: on the success code, encode the binary
    /// identifier the engine wrote into the caller-provided fixed-size slot,
    /// and return its forty-character lowercase hex form; on any other code,
    /// classify the failure. Valid only on an open session.
    pub fn insert(&mut self, status: StatusCode, id: &[u8]) -> (r: Result<String, Error>)
        requires
            old(self).is_open(),
            status == StatusCode::Okay ==> id@.len() == ID_BYTES,
        ensures
            final(self).is_open(),
            r is Ok <==> status == StatusCode::Okay,
            r is Ok ==> r->Ok_0@ == hex_encoded(id@) && r->Ok_0@.len() == 2 * ID_BYTES,
            r is Err ==> spec_map_status(status) == Err::<Status, Error>(r->Err_0),
    {
        match map_status(status) {
            Ok(_) => Ok(encode(id)),
            Err(e) => Err(e),
        }
    }

    /// Classify what the native synchronize ("pull") call reported: it
    /// flushes pending insertions into the searchable index. Valid only on
    /// an open session; does not change its state.
    pub fn pull(&mut self, status: StatusCode) -> (r: Result<Status, Error>)
        requires
            old(self).is_open(),
        ensures
            final(self).is_open(),
            r == spec_map_status(status),
    {
        map_status(status)
    }

    /// Finish a native search. A non-positive result limit is rejected with
    /// [`Error::InvalidArguments`] — this layer's documented choice; native
    /// behavior for a limit of zero is unspecified — and any result set
    /// handed in is still released. Otherwise a reply of hits is adapted
    /// into owned search hits (releasing the set exactly once), and a failure
    /// code is classified. Valid only on an open session.
    pub fn search(&mut self, result_num: i32, reply: SearchReply) -> (r: Result<
        Vec<OtamaResult>,
        Error,
    >)
        requires
            old(self).is_open(),
            reply matches SearchReply::Hits(rs) ==> !rs.spec_released(),
            // the engine may return fewer rows than requested, never more
            result_num > 0 ==> (reply matches SearchReply::Hits(rs) ==> rs.spec_rows().len()
                <= result_num),
            reply matches SearchReply::Failed(code) ==> code != StatusCode::Okay,
        ensures
            final(self).is_open(),
            result_num <= 0 ==> r == Err::<Vec<OtamaResult>, Error>(Error::InvalidArguments),
            result_num > 0 ==> (r is Ok <==> reply matches SearchReply::Hits(_)),
            result_num > 0 ==> (reply matches SearchReply::Hits(rs) ==> r is Ok
                && r->Ok_0@.len() == rs.spec_rows().len() && r->Ok_0@.len() <= result_num && (
            forall|i: int|
                0 <= i < rs.spec_rows().len() ==> (#[trigger] r->Ok_0@[i])@.id == spec_hit_id(
                    rs.spec_rows()[i],
                ) && r->Ok_0@[i]@.similarity == spec_hit_sim(rs.spec_rows()[i]))),
            result_num > 0 ==> (reply matches SearchReply::Failed(code) ==> spec_map_status(code)
                == Err::<Status, Error>(r->Err_0)),
    {
        if result_num <= 0 {
            match reply {
                SearchReply::Hits(mut rs) => rs.release(),
                SearchReply::Failed(_) => (),
            }
            return Err(Error::InvalidArguments);
        }
        match reply {
            SearchReply::Hits(mut rs) => Ok(adapt(&mut rs)),
            SearchReply::Failed(code) => match map_status(code) {
                Err(e) => Err(e),
                // a failed call reports a non-success code, so this arm is
                // never reached; classify defensively
                Ok(_) => Err(Error::Unknown),
            },
        }
    }
}

} // verus!
