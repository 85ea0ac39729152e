use vstd::prelude::*;
use vstd::string::StringSliceAdditionalSpecFns;
use vstd::utf8::{decode_utf8, valid_utf8};

verus! {

/// Capacity, in bytes, of the text fields exchanged with the propagation
/// library (the terminating NUL not included).
pub const GETSETSTRLEN: usize = 512;

/// What `String::from_utf8_lossy` returns for a byte sequence.
pub uninterp spec fn lossy_text(b: Seq<u8>) -> Seq<char>;

/// Relies on `String::from_utf8_lossy`: the bytes decoded as UTF-8, invalid
/// sequences replaced; bytes that are valid UTF-8 decode unchanged.
#[verifier::external_body]
fn decode_lossy(b: &[u8]) -> (r: String)
    ensures
        r@ == lossy_text(b@),
        valid_utf8(b@) ==> r@ == decode_utf8(b@),
{
    String::from_utf8_lossy(b).into_owned()
}

/// The bytes before the first NUL byte (all of them if there is none).
pub open spec fn text_of(b: Seq<u8>) -> Seq<u8>
    decreases b.len(),
{
    if b.len() == 0 {
        b
    } else if b[0] == 0 {
        Seq::empty()
    } else {
        seq![b[0]] + text_of(b.subrange(1, b.len() as int))
    }
}

/// The buffer that `from_string` fills for text with the given UTF-8 bytes:
/// at most `GETSETSTRLEN` of them, then NUL bytes up to one past the capacity.
pub open spec fn padded_field(bytes: Seq<u8>) -> Seq<u8> {
    let n = if bytes.len() < GETSETSTRLEN { bytes.len() as int } else { GETSETSTRLEN as int };
    bytes.subrange(0, n) + Seq::new((GETSETSTRLEN + 1 - n) as nat, |i: int| 0u8)
}

proof fn lemma_text_of_step(b: Seq<u8>, i: int)
    requires
        0 <= i < b.len(),
        b[i] != 0,
    ensures
        text_of(b.subrange(i, b.len() as int)) == seq![b[i]] + text_of(
            b.subrange(i + 1, b.len() as int),
        ),
{
    let s = b.subrange(i, b.len() as int);
    assert(s.subrange(1, s.len() as int) =~= b.subrange(i + 1, b.len() as int));
}

/// A NUL-terminated text buffer of fixed capacity, as the propagation
/// library reads and writes its string fields.
#[derive(Debug)]
pub struct GetSetString {
    buffer: Vec<u8>,
}

impl View for GetSetString {
    type V = Seq<u8>;

    closed spec fn view(&self) -> Seq<u8> {
        self.buffer@
    }
}

impl GetSetString {
    /// An empty field: `GETSETSTRLEN + 1` NUL bytes.
    pub fn new() -> (r: GetSetString)
        ensures
            r@ == Seq::new((GETSETSTRLEN + 1) as nat, |i: int| 0u8),
    {
        GetSetString { buffer: vec![0u8; GETSETSTRLEN + 1] }
    }

    /// A field holding the UTF-8 bytes of `value`, cut after
    /// `GETSETSTRLEN` bytes, NUL-padded.
    pub fn from_string(value: &str) -> (r: GetSetString)
        ensures
            r@ == padded_field(value.spec_bytes()),
    {
        let bytes = value.as_bytes();
        let len: usize = if bytes.len() < GETSETSTRLEN { bytes.len() } else { GETSETSTRLEN };
        let mut buffer: Vec<u8> = Vec::new();
        let mut i: usize = 0;
        while i < len
            invariant
                len <= bytes@.len(),
                len <= GETSETSTRLEN,
                i <= len,
                buffer@ =~= bytes@.subrange(0, i as int),
            decreases len - i,
        {
            buffer.push(bytes[i]);
            i = i + 1;
        }
        while i < GETSETSTRLEN + 1
            invariant
                len <= i <= GETSETSTRLEN + 1,
                len <= bytes@.len(),
                buffer@ =~= bytes@.subrange(0, len as int) + Seq::new(
                    (i - len) as nat,
                    |k: int| 0u8,
                ),
            decreases GETSETSTRLEN + 1 - i,
        {
            buffer.push(0u8);
            i = i + 1;
        }
        GetSetString { buffer }
    }

    /// Wraps a buffer that the propagation library filled.
    pub fn from_bytes(buffer: Vec<u8>) -> (r: GetSetString)
        ensures
            r@ == buffer@,
    {
        GetSetString { buffer }
    }

    /// The raw buffer, to hand to the propagation library.
    pub fn into_bytes(self) -> (r: Vec<u8>)
        ensures
            r@ == self@,
    {
        self.buffer
    }

    /// Number of bytes before the first NUL.
    pub fn text_len(&self) -> (k: usize)
        ensures
            k <= self@.len(),
            self@.subrange(0, k as int) == text_of(self@),
    {
        let n = self.buffer.len();
        let mut i: usize = 0;
        proof {
            let b = self.buffer@;
            assert(b.subrange(0, 0) + b.subrange(0, n as int) =~= b);
            assert(b.subrange(0, n as int) =~= b);
        }
        while i < n
            invariant
                n == self.buffer@.len(),
                i <= n,
                text_of(self.buffer@) == self.buffer@.subrange(0, i as int) + text_of(
                    self.buffer@.subrange(i as int, n as int),
                ),
            decreases n - i,
        {
            if self.buffer[i] == 0 {
                let ghost b = self.buffer@;
                assert(text_of(b.subrange(i as int, n as int)) =~= Seq::empty());
                assert(b.subrange(0, i as int) + Seq::<u8>::empty() =~= b.subrange(0, i as int));
                return i;
            }
            proof {
                let b = self.buffer@;
                lemma_text_of_step(b, i as int);
                assert(b.subrange(0, i as int) + seq![b[i as int]] =~= b.subrange(0, i + 1));
                assert(b.subrange(0, i as int) + (seq![b[i as int]] + text_of(
                    b.subrange(i + 1, n as int),
                )) =~= b.subrange(0, i + 1) + text_of(b.subrange(i + 1, n as int)));
            }
            i = i + 1;
        }
        proof {
            let b = self.buffer@;
            assert(b.subrange(n as int, n as int) =~= Seq::<u8>::empty());
            assert(b.subrange(0, n as int) + Seq::<u8>::empty() =~= b.subrange(0, n as int));
        }
        n
    }

    /// The text held: the bytes before the first NUL, decoded as UTF-8 with
    /// invalid sequences replaced.
    pub fn value(&self) -> (r: String)
        ensures
            r@ == lossy_text(text_of(self@)),
    {
        let k = self.text_len();
        let mut text: Vec<u8> = Vec::new();
        let mut i: usize = 0;
        while i < k
            invariant
                k <= self.buffer@.len(),
                i <= k,
                text@ =~= self.buffer@.subrange(0, i as int),
            decreases k - i,
        {
            text.push(self.buffer[i]);
            i = i + 1;
        }
        decode_lossy(text.as_slice())
    }
}

} // verus!
