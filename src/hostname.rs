//! The hostname, out of the buffer that the system fills.
use crate::error::Error;
use vstd::prelude::*;

verus! {

/// The size of the buffer handed to the system: the longest hostname and a NUL.
pub const HOSTNAME_BUFFER_LEN: usize = 257;

/// What `String::from_utf8` makes of `b`: the characters, or nothing where
/// `b` is not valid UTF-8.
pub uninterp spec fn utf8_decoded(b: Seq<u8>) -> Option<Seq<char>>;

/// Relies on `String::from_utf8`: it decodes valid UTF-8, and fails otherwise.
#[verifier::external_body]
fn decode_utf8(bytes: Vec<u8>) -> (r: Option<String>)
    ensures
        match r {
            Some(s) => utf8_decoded(bytes@) == Some(s@),
            None => utf8_decoded(bytes@) is None,
        },
{
    String::from_utf8(bytes).ok()
}

/// Whether `b` holds no NUL byte.
pub open spec fn nul_free(b: Seq<u8>) -> bool {
    forall|i: int| 0 <= i < b.len() ==> b[i] != 0
}

/// Whether `n` is the position of the first NUL byte of `b`.
pub open spec fn first_nul(b: Seq<u8>, n: int) -> bool {
    0 <= n < b.len() && b[n] == 0 && nul_free(b.take(n))
}

/// The bytes before the first NUL of `buf`, or `None` if it holds no NUL.
pub fn hostname_prefix(buf: &[u8]) -> (r: Option<Vec<u8>>)
    ensures
        r is None <==> nul_free(buf@),
        forall|n: int| first_nul(buf@, n) ==> (r matches Some(p) && p@ == buf@.take(n)),
        match r {
            Some(p) => first_nul(buf@, p@.len() as int) && p@ == buf@.take(p@.len() as int),
            None => true,
        },
{
    let mut out: Vec<u8> = Vec::new();
    let mut i: usize = 0;
    while i < buf.len()
        invariant
            i <= buf@.len(),
            out@ == buf@.take(i as int),
            nul_free(buf@.take(i as int)),
        decreases buf@.len() - i,
    {
        if buf[i] == 0 {
            proof {
                assert forall|n: int| first_nul(buf@, n) implies n == i by {
                    if n < i {
                        assert(buf@.take(i as int)[n] == 0);
                    } else if n > i {
                        assert(buf@.take(n)[i as int] == 0);
                    }
                }
            }
            return Some(out);
        }
        out.push(buf[i]);
        i = i + 1;
        proof {
            assert(out@ =~= buf@.take(i as int));
        }
    }
    proof {
        assert(buf@.take(i as int) =~= buf@);
    }
    None
}

/// The hostname held in `buf`: the UTF-8 text before its first NUL byte.
pub fn hostname_from_buffer(buf: &[u8]) -> (r: Result<String, Error>)
    ensures
        nul_free(buf@) <==> r == Err::<String, Error>(Error::HostnameMissingNull),
        forall|n: int|
            first_nul(buf@, n) ==> match utf8_decoded(buf@.take(n)) {
                Some(s) => r matches Ok(h) && h@ == s,
                None => r == Err::<String, Error>(Error::NonUtf8Hostname),
            },
{
    match hostname_prefix(buf) {
        None => Err(Error::HostnameMissingNull),
        Some(prefix) => match decode_utf8(prefix) {
            Some(s) => Ok(s),
            None => Err(Error::NonUtf8Hostname),
        },
    }
}

} // verus!
