//! String exchange buffers for the native boundary.
//!
//! The native layer returns text by writing a null-terminated byte string
//! into a caller-supplied fixed-capacity buffer, and exchanges lists of
//! strings through a growable vector. [`FfiString`] is the fixed buffer:
//! filling it and scanning it back are verified against the byte-level
//! null-termination discipline and the UTF-8 coding functions.
//! [`FfiStringVec`] is the growable list, with ordinary indexed access
//! where an out-of-range index is an expected condition, not an error.

use vstd::prelude::*;
use vstd::utf8::{decode_utf8, encode_utf8, valid_utf8};
use crate::error::UhdError;

verus! {

/// The index of the first null byte, if any.
pub open spec fn first_nul(b: Seq<u8>) -> Option<int>
    decreases b.len(),
{
    if b.len() == 0 {
        None
    } else if b[0] == 0 {
        Some(0)
    } else {
        match first_nul(b.skip(1)) {
            Some(i) => Some(i + 1),
            None => None,
        }
    }
}

/// The bytes before the first null terminator.
pub open spec fn terminated_content(b: Seq<u8>) -> Seq<u8>
    recommends
        first_nul(b) is Some,
{
    b.take(first_nul(b).unwrap())
}

/// `first_nul` finds exactly the position whose byte is zero and whose
/// predecessors are all nonzero.
pub proof fn lemma_first_nul_at(b: Seq<u8>, k: int)
    requires
        0 <= k < b.len(),
        b[k] == 0,
        forall|j: int| 0 <= j < k ==> b[j] != 0,
    ensures
        first_nul(b) == Some(k),
    decreases k,
{
    if k == 0 {
    } else {
        assert(b.skip(1)[k - 1] == b[k]);
        assert(forall|j: int| 0 <= j < k - 1 ==> b.skip(1)[j] == b[j + 1]);
        lemma_first_nul_at(b.skip(1), k - 1);
    }
}

/// A buffer without a zero byte has no terminator.
pub proof fn lemma_first_nul_none(b: Seq<u8>)
    requires
        forall|j: int| 0 <= j < b.len() ==> b[j] != 0,
    ensures
        first_nul(b) is None,
    decreases b.len(),
{
    if b.len() == 0 {
    } else {
        assert(forall|j: int| 0 <= j < b.skip(1).len() ==> b.skip(1)[j] == b[j + 1]);
        lemma_first_nul_none(b.skip(1));
    }
}

/// A fixed-capacity byte buffer into which the native layer writes a
/// null-terminated string of at most `capacity - 1` content bytes.
pub struct FfiString {
    buf: Vec<u8>,
}

impl View for FfiString {
    type V = Seq<u8>;

    closed spec fn view(&self) -> Seq<u8> {
        self.buf@
    }
}

/// Relies on core::str::from_utf8: it returns a string exactly when the
/// bytes are valid UTF-8, and that string's characters are the decoding
/// of those bytes.
#[verifier::external_body]
fn bytes_to_string(bytes: &[u8]) -> (r: Option<String>)
    ensures
        r is Some <==> valid_utf8(bytes@),
        r matches Some(s) ==> s@ == decode_utf8(bytes@),
{
    match core::str::from_utf8(bytes) {
        Ok(s) => Some(s.to_owned()),
        Err(_) => None,
    }
}

impl FfiString {
    /// A zero-filled buffer of `len` bytes. A buffer needs room for at
    /// least the terminator, so a zero capacity is a programming error
    /// and is excluded.
    pub fn with_capacity(len: usize) -> (r: FfiString)
        requires
            len >= 1,
        ensures
            r@ =~= Seq::new(len as nat, |i: int| 0u8),
            r@.len() == len,
    {
        let mut buf: Vec<u8> = Vec::new();
        let mut i: usize = 0;
        while i < len
            invariant
                i <= len,
                buf@.len() == i,
                forall|j: int| 0 <= j < i ==> buf@[j] == 0u8,
            decreases len - i,
        {
            buf.push(0u8);
            i = i + 1;
        }
        FfiString { buf }
    }

    /// The buffer's capacity in bytes.
    pub fn max_chars(&self) -> (r: usize)
        ensures
            r == self@.len(),
    {
        self.buf.len()
    }

    /// Writes `data` followed by a null terminator, as the native layer
    /// does. Fails, leaving the buffer unchanged, when the data would not
    /// leave room for the terminator or itself contains a null byte.
    pub fn write_bytes(&mut self, data: &[u8]) -> (r: Result<(), UhdError>)
        ensures
            final(self)@.len() == old(self)@.len(),
            r is Ok <==> data@.len() < old(self)@.len() && (forall|j: int|
                0 <= j < data@.len() ==> data@[j] != 0),
            r is Ok ==> final(self)@ =~= data@ + seq![0u8] + old(self)@.skip(
                data@.len() + 1 as int,
            ),
            r is Err ==> final(self)@ == old(self)@ && r == Result::<(), UhdError>::Err(
                UhdError::InvalidArgument,
            ),
    {
        if data.len() >= self.buf.len() {
            return Err(UhdError::InvalidArgument);
        }
        let mut i: usize = 0;
        while i < data.len()
            invariant
                i <= data@.len(),
                forall|j: int| 0 <= j < i ==> data@[j] != 0,
            decreases data@.len() - i,
        {
            if data[i] == 0 {
                return Err(UhdError::InvalidArgument);
            }
            i = i + 1;
        }
        let mut k: usize = 0;
        while k < data.len()
            invariant
                k <= data@.len(),
                data@.len() < self.buf@.len(),
                self.buf@.len() == old(self)@.len(),
                forall|j: int| 0 <= j < k ==> self.buf@[j] == data@[j],
                forall|j: int| k <= j < self.buf@.len() ==> self.buf@[j] == old(self)@[j],
            decreases data@.len() - k,
        {
            self.buf.set(k, data[k]);
            k = k + 1;
        }
        self.buf.set(data.len(), 0u8);
        Ok(())
    }

    /// Writes a text's UTF-8 encoding followed by a null terminator.
    /// Fails, leaving the buffer unchanged, when the encoding would not
    /// fit or contains a null byte (that is, when the text contains a
    /// null character).
    pub fn write_str(&mut self, s: &str) -> (r: Result<(), UhdError>)
        ensures
            final(self)@.len() == old(self)@.len(),
            r is Ok <==> encode_utf8(s@).len() < old(self)@.len() && (forall|j: int|
                0 <= j < encode_utf8(s@).len() ==> encode_utf8(s@)[j] != 0),
            r is Ok ==> final(self)@ =~= encode_utf8(s@) + seq![0u8] + old(self)@.skip(
                encode_utf8(s@).len() + 1 as int,
            ),
            r is Err ==> final(self)@ == old(self)@ && r == Result::<(), UhdError>::Err(
                UhdError::InvalidArgument,
            ),
    {
        let bytes = s.as_bytes();
        self.write_bytes(bytes)
    }

    /// Scans for the first null terminator and decodes the bytes before
    /// it. Fails when no terminator exists within the capacity, or when
    /// the bytes before it are not valid UTF-8 text.
    pub fn to_string(&self) -> (r: Result<String, UhdError>)
        ensures
            r is Ok <==> first_nul(self@) is Some && valid_utf8(terminated_content(self@)),
            r matches Ok(t) ==> t@ == decode_utf8(terminated_content(self@)),
            r is Err ==> r == Result::<String, UhdError>::Err(UhdError::Unknown),
    {
        let n = self.buf.len();
        let mut i: usize = 0;
        while i < n
            invariant
                i <= n,
                n == self@.len(),
                forall|j: int| 0 <= j < i ==> self@[j] != 0,
            decreases n - i,
        {
            if *vstd::slice::slice_index_get(self.buf.as_slice(), i) == 0 {
                proof {
                    lemma_first_nul_at(self@, i as int);
                }
                let mut content: Vec<u8> = Vec::new();
                let mut k: usize = 0;
                while k < i
                    invariant
                        k <= i,
                        i < self@.len(),
                        content@ =~= self@.take(k as int),
                    decreases i - k,
                {
                    content.push(*vstd::slice::slice_index_get(self.buf.as_slice(), k));
                    k = k + 1;
                }
                let decoded = bytes_to_string(content.as_slice());
                return match decoded {
                    Some(t) => Ok(t),
                    None => Err(UhdError::Unknown),
                };
            }
            i = i + 1;
        }
        proof {
            lemma_first_nul_none(self@);
        }
        Err(UhdError::Unknown)
    }
}

/// Round trip: a text whose UTF-8 encoding has no interior null byte is
/// returned exactly after being written with its terminator — the scan
/// stops at the terminator, the content is the original encoding, and
/// decoding yields the original characters, whatever padding follows.
pub proof fn lemma_write_read_round_trip(s: Seq<char>, pad: Seq<u8>)
    requires
        forall|j: int| 0 <= j < encode_utf8(s).len() ==> encode_utf8(s)[j] != 0,
    ensures
        first_nul(encode_utf8(s) + seq![0u8] + pad) == Some(encode_utf8(s).len() as int),
        terminated_content(encode_utf8(s) + seq![0u8] + pad) =~= encode_utf8(s),
        valid_utf8(encode_utf8(s)),
        decode_utf8(encode_utf8(s)) == s,
{
    let b = encode_utf8(s) + seq![0u8] + pad;
    let k = encode_utf8(s).len() as int;
    assert(b[k] == 0);
    assert(forall|j: int| 0 <= j < k ==> b[j] == encode_utf8(s)[j]);
    lemma_first_nul_at(b, k);
    vstd::utf8::encode_utf8_valid_utf8(s);
    vstd::utf8::encode_utf8_decode_utf8(s);
}

/// A growable list of strings exchanged with the native layer, read back
/// by index. The native sequence is modelled by the list of texts pushed,
/// in order.
pub struct FfiStringVec {
    items: Vec<String>,
}

impl View for FfiStringVec {
    type V = Seq<Seq<char>>;

    closed spec fn view(&self) -> Seq<Seq<char>> {
        self.items.deep_view()
    }
}

impl FfiStringVec {
    /// An empty string vector.
    pub fn new() -> (r: FfiStringVec)
        ensures
            r@ =~= Seq::<Seq<char>>::empty(),
    {
        FfiStringVec { items: Vec::new() }
    }

    /// Appends a string. The native boundary carries strings
    /// null-terminated, so a text containing a null character is a
    /// programming error and is excluded.
    pub fn push(&mut self, value: &str)
        requires
            forall|j: int| 0 <= j < value@.len() ==> value@[j] as u32 != 0,
        ensures
            final(self)@ =~= old(self)@.push(value@),
    {
        self.items.push(value.to_owned());
        proof {
            assert(final(self)@ =~= old(self)@.push(value@));
        }
    }

    /// The number of strings in the vector.
    pub fn len(&self) -> (r: usize)
        ensures
            r == self@.len(),
    {
        self.items.len()
    }

    /// The string at `index`, or `None` when `index` is out of range —
    /// a normal, expected condition, never a panic.
    pub fn get(&self, index: usize) -> (r: Option<String>)
        ensures
            index < self@.len() ==> (r matches Some(t) && t@ == self@[index as int]),
            index >= self@.len() ==> r is None,
    {
        if index < self.items.len() {
            let t = self.items[index].clone();
            proof {
                assert(t@ == self@[index as int]);
            }
            Some(t)
        } else {
            None
        }
    }

    /// Materializes the whole list, in index order.
    pub fn to_vec(&self) -> (r: Vec<String>)
        ensures
            r@.len() == self@.len(),
            forall|j: int| 0 <= j < r@.len() ==> r@[j]@ == self@[j],
    {
        let mut result: Vec<String> = Vec::new();
        let n = self.len();
        let mut i: usize = 0;
        while i < n
            invariant
                i <= n,
                n == self@.len(),
                result@.len() == i,
                forall|j: int| 0 <= j < i ==> result@[j]@ == self@[j],
            decreases n - i,
        {
            match self.get(i) {
                Some(t) => {
                    result.push(t);
                },
                None => {
                    proof {
                        assert(false);
                    }
                },
            }
            i = i + 1;
        }
        result
    }
}

} // verus!
