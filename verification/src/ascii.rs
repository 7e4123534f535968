//! Fixed-width ASCII text as it travels in HID++ payloads: `N` bytes, padded
//! with trailing NUL bytes. `tinystr` decides which raw arrays are valid.
use vstd::prelude::*;
use tinystr::TinyAsciiStr;
use crate::encode::{Decode, array_of};

verus! {

/// Whether `raw` is accepted by `TinyAsciiStr::try_from_raw`: every byte is
/// ASCII and no other byte follows a NUL byte.
pub open spec fn valid_ascii_raw(raw: Seq<u8>) -> bool {
    &&& forall|i: int| 0 <= i < raw.len() ==> #[trigger] raw[i] < 0x80
    &&& forall|i: int, j: int| 0 <= i < j < raw.len() && raw[i] == 0 ==> raw[j] == 0
}

/// `TinyAsciiStr::<N>::try_from_raw`, asked only whether it accepts `raw`.
#[verifier::external_body]
fn tinystr_accepts<const N: usize>(raw: &[u8; N]) -> (ok: bool)
    ensures
        ok == valid_ascii_raw(raw@),
{
    TinyAsciiStr::<N>::try_from_raw(*raw).is_ok()
}

/// `N` bytes of ASCII text padded with NUL bytes, as `tinystr` accepts them.
#[derive(Clone, Copy, Debug, PartialEq, Eq)]
pub struct AsciiStr<const N: usize> {
    raw: [u8; N],
}

impl<const N: usize> View for AsciiStr<N> {
    type V = Seq<u8>;

    closed spec fn view(&self) -> Seq<u8> {
        self.raw@
    }
}

impl<const N: usize> AsciiStr<N> {
    /// The text of `raw` when `tinystr` accepts it, else `None`.
    pub fn try_from_raw(raw: [u8; N]) -> (r: Option<Self>)
        ensures
            r is Some <==> valid_ascii_raw(raw@),
            r matches Some(s) ==> s@ == raw@,
    {
        if tinystr_accepts(&raw) {
            Some(AsciiStr { raw })
        } else {
            None
        }
    }

    /// All `N` bytes, the padding included.
    pub fn all_bytes(&self) -> (r: &[u8; N])
        ensures
            r@ == self@,
    {
        &self.raw
    }

    /// The spec value that stands for the text whose raw bytes are `raw`.
    pub closed spec fn from_view(raw: Seq<u8>) -> Self {
        AsciiStr { raw: array_of(raw) }
    }
}

impl<const N: usize> Decode for AsciiStr<N> {
    open spec fn decode_len() -> nat {
        N as nat
    }

    open spec fn decodable(bytes: Seq<u8>) -> bool {
        valid_ascii_raw(bytes.take(N as int))
    }

    open spec fn decoded(bytes: Seq<u8>) -> Self {
        Self::from_view(bytes.take(N as int))
    }

    fn decode(buf: &mut &[u8]) -> (r: Self)
        ensures
            r@ == old(buf)@.take(N as int),
    {
        let (head, tail) = buf.split_at(N);
        let mut raw: [u8; N] = vstd::array::array_fill_for_copy_types(0u8);
        let mut i: usize = 0;
        while i < N
            invariant
                i <= N,
                head@.len() == N,
                raw@.len() == N,
                forall|k: int| 0 <= k < i ==> raw@[k] == head@[k],
            decreases N - i,
        {
            raw[i] = head[i];
            i = i + 1;
        }
        *buf = tail;
        proof {
            broadcast use vstd::array::group_array_axioms;
            assert(raw@ =~= head@);
            assert(head@ =~= old(buf)@.take(N as int));
        }
        let r = Self::try_from_raw(raw).unwrap();
        proof {
            broadcast use vstd::array::group_array_axioms;
            let a: [u8; N] = array_of(head@);
            assert(a@ == head@);
            assert(a == r.raw);
        }
        r
    }
}

} // verus!
