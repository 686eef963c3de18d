//! The identity that a request is traced by.

use vstd::prelude::*;

verus! {

/// How many characters a request identity has.
pub const REQUEST_ID_LENGTH: usize = 10;

/// What is known of a request wherever it goes: its identity.
#[derive(Debug)]
pub struct RequestTraceData {
    id: String,
}

/// The characters that an identity is made of: letters, digits, the
/// underscore and the hyphen.
pub open spec fn is_id_char(c: char) -> bool {
    ||| c == '_'
    ||| c == '-'
    ||| '0' <= c <= '9'
    ||| 'a' <= c <= 'z'
    ||| 'A' <= c <= 'Z'
}

/// `nanoid::format` with the crate's default random source and its
/// alphabet `SAFE`: a random string of `size` characters of that alphabet.
/// Which characters is left open. A size of zero would never return, and
/// eight times the size must not overflow.
#[verifier::external_body]
fn random_id(size: usize) -> (id: String)
    requires
        0 < size <= usize::MAX / 8,
    ensures
        id@.len() == size,
        forall|i: int| 0 <= i < id@.len() ==> is_id_char(#[trigger] id@[i]),
{
    nanoid::format(nanoid::rngs::default, &nanoid::alphabet::SAFE, size)
}

impl Clone for RequestTraceData {
    fn clone(&self) -> (copy: RequestTraceData)
        ensures
            copy == *self,
    {
        RequestTraceData { id: self.id.clone() }
    }
}

impl RequestTraceData {
    /// The identity as contracts speak of it.
    pub closed spec fn id(&self) -> Seq<char> {
        self.id@
    }

    /// The trace data of a new request, under a fresh random identity.
    pub fn new() -> (data: RequestTraceData)
        ensures
            data.id().len() == REQUEST_ID_LENGTH,
            forall|i: int| 0 <= i < data.id().len() ==> is_id_char(#[trigger] data.id()[i]),
    {
        RequestTraceData { id: random_id(REQUEST_ID_LENGTH) }
    }

    pub fn get_id(&self) -> (id: String)
        ensures
            id@ == self.id(),
    {
        return self.id.clone();
    }
}

} // verus!
