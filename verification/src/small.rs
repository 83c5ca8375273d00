//! Inline storage for small strings.
use vstd::prelude::*;
use vstd::slice::slice_subrange;
use vstd::string::StringSliceAdditionalSpecFns;
use vstd::utf8::decode_utf8;
use vstd::utf8::decode_utf8_encode_utf8;
use vstd::utf8::encode_utf8_decode_utf8;
use vstd::utf8::encode_utf8_valid_utf8;
use vstd::utf8::valid_utf8;
use crate::check::byte_length;

verus! {

/// The capacity of the inline buffer, in bytes.
pub const SMALL_STRING_BUF: usize = 16;

/// Small string data storage.
///
/// Encapsulates a 16 bytes buffer allowing storage of small strings without
/// an allocation.  The first `length` bytes of the buffer are the UTF-8
/// encoding of the stored text; the bytes past `length` are never read.
#[derive(Debug, Clone, Copy, Hash)]
pub struct SmallString {
    length: usize,
    bytes: [u8; SMALL_STRING_BUF],
}

impl View for SmallString {
    type V = Seq<char>;

    open spec fn view(&self) -> Seq<char> {
        decode_utf8(self.byte_seq())
    }
}

impl SmallString {
    /// The stored bytes: the prefix of the buffer up to the stored length.
    pub closed spec fn byte_seq(&self) -> Seq<u8> {
        self.bytes@.take(self.length as int)
    }

    /// Well-formedness: the length fits the buffer and the stored bytes are
    /// valid UTF-8.  This holds of every value of the type: construction
    /// copies the bytes of an existing string slice.
    #[verifier::type_invariant]
    closed spec fn wf(&self) -> bool {
        self.length <= SMALL_STRING_BUF && valid_utf8(self.byte_seq())
    }

    /// Try to construct a small string.
    ///
    /// Returns `None` exactly when the string slice is too large for the
    /// buffer; otherwise the stored text is the given value.
    pub fn try_from(value: &str) -> (r: Option<SmallString>)
        ensures
            byte_length(value@) <= SMALL_STRING_BUF ==> (r matches Some(small) && small@
                == value@),
            byte_length(value@) > SMALL_STRING_BUF ==> r is None,
    {
        let value_bytes = value.as_bytes();
        if value_bytes.len() <= SMALL_STRING_BUF {
            let mut bytes: [u8; SMALL_STRING_BUF] = [0; SMALL_STRING_BUF];
            let mut i: usize = 0;
            while i < value_bytes.len()
                invariant
                    i <= value_bytes.len() <= 16,
                    bytes@.len() == 16,
                    forall|k: int| 0 <= k < i ==> bytes@[k] == value_bytes@[k],
                decreases value_bytes.len() - i,
            {
                bytes[i] = value_bytes[i];
                i = i + 1;
            }
            proof {
                assert(bytes@.take(value_bytes@.len() as int) =~= value_bytes@);
                encode_utf8_valid_utf8(value@);
                encode_utf8_decode_utf8(value@);
            }
            let small = SmallString { length: value_bytes.len(), bytes };
            Some(small)
        } else {
            None
        }
    }

    /// Get a reference to the stored string slice.
    ///
    /// The slice holds exactly the stored characters, and — since they come
    /// out of the inline buffer — at most 16 bytes of them.
    pub fn as_str(&self) -> (r: &str)
        ensures
            r@ == self@,
            byte_length(self@) <= SMALL_STRING_BUF,
    {
        proof {
            use_type_invariant(self);
            decode_utf8_encode_utf8(self.byte_seq());
        }
        let prefix = slice_subrange(self.bytes.as_slice(), 0, self.length);
        proof {
            assert(prefix@ =~= self.byte_seq());
        }
        let r = bytes_to_str(prefix);
        proof {
            encode_utf8_decode_utf8(r@);
        }
        r
    }
}

/// Relies on `str::from_utf8`: decoding a valid UTF-8 buffer yields the
/// string slice whose bytes are exactly that buffer.
#[verifier::external_body]
fn bytes_to_str(bytes: &[u8]) -> (r: &str)
    requires
        valid_utf8(bytes@),
    ensures
        r.spec_bytes() == bytes@,
{
    std::str::from_utf8(bytes).unwrap()
}

} // verus!
