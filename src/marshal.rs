//! Turning a host string handle into an owned, well-formed string.
//!
//! A handle is the run of bytes that the host exposes: the text, a zero
//! sentinel, and possibly bytes beyond it. The slice's length is the bound
//! the host guarantees on the scan; the text never reaches past it.
use vstd::prelude::*;
use vstd::slice::slice_subrange;
use vstd::utf8::{decode_utf8, valid_utf8};

verus! {

/// The byte that ends the text of a handle.
pub const SENTINEL: u8 = 0;

/// The reasons a call across the boundary can fail. At the boundary all
/// of them read as the same failure code.
#[derive(Clone, Copy, Debug, PartialEq, Eq, Structural)]
pub enum GatewayError {
    /// The handle does not hold a terminated, well-formed UTF-8 text.
    InvalidEncoding,
    /// A path was refused by the path rules.
    InvalidPath,
    /// The file store could not complete the operation.
    BackendFailure,
}

/// `i` is the position of the first sentinel in `b`.
pub open spec fn is_first_sentinel(b: Seq<u8>, i: int) -> bool {
    &&& 0 <= i < b.len()
    &&& b[i] == SENTINEL
    &&& forall|j: int| 0 <= j < i ==> #[trigger] b[j] != SENTINEL
}

/// `b` holds a sentinel within its bound.
pub open spec fn terminated(b: Seq<u8>) -> bool {
    exists|i: int| is_first_sentinel(b, i)
}

/// The bytes before the first sentinel of `b`.
pub open spec fn text_bytes(b: Seq<u8>) -> Seq<u8>
    recommends
        terminated(b),
{
    b.take(choose|i: int| is_first_sentinel(b, i))
}

/// `b` is a terminated handle whose text is well-formed UTF-8.
pub open spec fn decodes(b: Seq<u8>) -> bool {
    terminated(b) && valid_utf8(text_bytes(b))
}

/// The characters that the handle `b` carries, when it decodes.
pub open spec fn handle_text(b: Seq<u8>) -> Seq<char>
    recommends
        decodes(b),
{
    decode_utf8(text_bytes(b))
}

/// There is at most one first sentinel.
proof fn lemma_first_sentinel_unique(b: Seq<u8>, i: int, k: int)
    requires
        is_first_sentinel(b, i),
        is_first_sentinel(b, k),
    ensures
        i == k,
{
    if i < k {
        assert(b[i] != SENTINEL);
    } else if k < i {
        assert(b[k] != SENTINEL);
    }
}

/// Relies on core::str::from_utf8: it succeeds exactly when the bytes are
/// well-formed UTF-8, and the text it yields is what those bytes encode.
#[verifier::external_body]
fn utf8_text(b: &[u8]) -> (r: Option<&str>)
    ensures
        r is Some <==> valid_utf8(b@),
        r matches Some(s) ==> s@ == decode_utf8(b@),
{
    core::str::from_utf8(b).ok()
}

/// Decodes a host handle into an owned string. The scan never passes the
/// end of `handle`; a handle without a sentinel, or whose text is not
/// well-formed UTF-8, is refused as a whole.
pub fn marshal(handle: &[u8]) -> (r: Result<String, GatewayError>)
    ensures
        decodes(handle@) ==> (r matches Ok(s) && s@ == handle_text(handle@)),
        !decodes(handle@) ==> r == Err::<String, GatewayError>(GatewayError::InvalidEncoding),
{
    let mut i: usize = 0;
    while i < handle.len()
        invariant
            i <= handle@.len(),
            forall|j: int| 0 <= j < i ==> #[trigger] handle@[j] != SENTINEL,
        decreases handle@.len() - i,
    {
        if handle[i] == SENTINEL {
            proof {
                assert(is_first_sentinel(handle@, i as int));
                let k = choose|k: int| is_first_sentinel(handle@, k);
                lemma_first_sentinel_unique(handle@, i as int, k);
            }
            let text = slice_subrange(handle, 0, i);
            assert(text@ == text_bytes(handle@));
            return match utf8_text(text) {
                Some(s) => Ok(s.to_owned()),
                None => Err(GatewayError::InvalidEncoding),
            };
        }
        i = i + 1;
    }
    assert(!terminated(handle@));
    Err(GatewayError::InvalidEncoding)
}

} // verus!
