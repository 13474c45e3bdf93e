//! The frame codec: outbound calls as newline-terminated JSON lines, and the
//! correlation ids that requests carry.
//!
//! A request is the call's own JSON value with a top-level `id` field added to
//! it; a notification is the call's value as it stands. Ids count up from 1,
//! one per request, so that the `n`-th request of a codec gets id `n`.
use vstd::prelude::*;
use crate::json::{
    encode_value, json_encoding, json_field, json_is_null, json_is_object, json_of_u64,
    json_with_field, number_value, set_field,
};

verus! {

/// The byte that ends every frame on the wire.
pub const NEWLINE: u8 = 10;

/// Why an outbound call could not be turned into a frame.
#[derive(Debug, Clone, Copy, PartialEq, Eq, Structural)]
pub enum EncodeError {
    /// A request's value is neither an object nor `null`, so it has no place
    /// for an `id` field.
    NotAnObject,
    /// The serializer reported an error.
    Serialize,
}

/// A call's value with the field `id` set to the given correlation id.
pub open spec fn with_id(payload: serde_json::Value, id: u64) -> serde_json::Value {
    json_with_field(payload, "id"@, json_of_u64(id))
}

/// Whether a request's value can take an `id` field.
pub open spec fn takes_id(payload: serde_json::Value) -> bool {
    json_is_object(payload) || json_is_null(payload)
}

/// The frame for a value: its encoding followed by a newline, or `None` where
/// it cannot be encoded.
pub open spec fn frame_of(v: serde_json::Value) -> Option<Seq<u8>> {
    match json_encoding(v) {
        Some(bytes) => Some(bytes.push(NEWLINE)),
        None => None,
    }
}

/// The ids that the requests among a run of outbound calls receive (`true`
/// for a request, `false` for a notification), from a codec whose last id
/// was `start`.
pub open spec fn request_ids(start: nat, calls: Seq<bool>) -> Seq<nat>
    decreases calls.len(),
{
    if calls.len() == 0 {
        Seq::empty()
    } else {
        let earlier = request_ids(start, calls.drop_last());
        if calls.last() {
            earlier.push(start + earlier.len() + 1)
        } else {
            earlier
        }
    }
}

/// The number of requests in a run of outbound calls.
pub open spec fn count_requests(calls: Seq<bool>) -> nat
    decreases calls.len(),
{
    if calls.len() == 0 {
        0
    } else {
        count_requests(calls.drop_last()) + if calls.last() { 1nat } else { 0nat }
    }
}

/// Encodes a notification: the call's value as it stands, with no id.
pub fn encode_notification(payload: &serde_json::Value) -> (r: Result<Vec<u8>, EncodeError>)
    ensures
        match r {
            Ok(line) => frame_of(*payload) == Some(line@),
            Err(e) => frame_of(*payload) is None && e == EncodeError::Serialize,
        },
{
    match encode_value(payload) {
        Ok(bytes) => {
            let mut line = bytes;
            line.push(NEWLINE);
            Ok(line)
        },
        Err(_) => Err(EncodeError::Serialize),
    }
}

/// The ids of a run of requests count up by one from the id after `start`:
/// the `i`-th request gets `start + i + 1`, whatever notifications stand
/// between them. From a new codec (`start` 0) the ids are 1, 2, 3, ...
pub proof fn request_ids_count_up(start: nat, calls: Seq<bool>)
    ensures
        request_ids(start, calls).len() == count_requests(calls),
        forall|i: int| 0 <= i < request_ids(start, calls).len() ==> #[trigger] request_ids(start, calls)[i] == start + i + 1,
    decreases calls.len(),
{
    if calls.len() > 0 {
        request_ids_count_up(start, calls.drop_last());
    }
}

/// Notifications spend no id: a request sent after any number of them gets
/// the id after the last one handed out.
pub proof fn notifications_spend_no_id(start: nat, n: nat)
    ensures
        request_ids(start, Seq::new(n, |i: int| false).push(true)) == seq![start + 1],
{
    let calls = Seq::new(n, |i: int| false).push(true);
    request_ids_count_up(start, calls);
    no_requests_among_notifications(start, n);
    assert(calls.drop_last() =~= Seq::new(n, |i: int| false));
    assert(request_ids(start, calls) =~= seq![start + 1]);
}

proof fn no_requests_among_notifications(start: nat, n: nat)
    ensures
        request_ids(start, Seq::new(n, |i: int| false)).len() == 0,
    decreases n,
{
    if n > 0 {
        no_requests_among_notifications(start, (n - 1) as nat);
        assert(Seq::new(n, |i: int| false).drop_last() =~= Seq::new((n - 1) as nat, |i: int| false));
    }
}

/// The outbound half of a client: the counter of correlation ids.
pub struct FrameCodec {
    rpc_index: u64,
}

impl FrameCodec {
    /// The last id handed out; 0 before the first request.
    pub closed spec fn spec_index(&self) -> u64 {
        self.rpc_index
    }

    /// A codec that has handed out no id yet.
    pub fn new() -> (r: FrameCodec)
        ensures
            r.spec_index() == 0,
    {
        FrameCodec { rpc_index: 0 }
    }

    /// The last id handed out; 0 before the first request.
    pub fn rpc_index(&self) -> (r: u64)
        ensures
            r == self.spec_index(),
    {
        self.rpc_index
    }

    /// Encodes a request: the call's value with `id` set to the next
    /// correlation id, which is returned beside the frame.
    ///
    /// A value that is neither an object nor `null` is refused and takes no
    /// id. Once the id is set, it is spent even where the serializer fails.
    pub fn encode_request(&mut self, payload: serde_json::Value) -> (r: Result<(Vec<u8>, u64), EncodeError>)
        requires
            old(self).spec_index() < u64::MAX,
        ensures
            takes_id(payload) ==> final(self).spec_index() == old(self).spec_index() + 1,
            !takes_id(payload) ==> final(self).spec_index() == old(self).spec_index(),
            match r {
                Ok((line, id)) => {
                    &&& takes_id(payload)
                    &&& id == old(self).spec_index() + 1
                    &&& frame_of(with_id(payload, id)) == Some(line@)
                    &&& json_field(with_id(payload, id), "id"@) == Some(json_of_u64(id))
                },
                Err(EncodeError::NotAnObject) => !takes_id(payload),
                Err(EncodeError::Serialize) => {
                    &&& takes_id(payload)
                    &&& frame_of(with_id(payload, (old(self).spec_index() + 1) as u64)) is None
                },
            },
    {
        if !(payload.is_object() || payload.is_null()) {
            return Err(EncodeError::NotAnObject);
        }
        self.rpc_index = self.rpc_index + 1;
        let id = self.rpc_index;
        let mut value = payload;
        set_field(&mut value, "id", number_value(id));
        match encode_value(&value) {
            Ok(bytes) => {
                let mut line = bytes;
                line.push(NEWLINE);
                Ok((line, id))
            },
            Err(_) => Err(EncodeError::Serialize),
        }
    }
}

} // verus!
