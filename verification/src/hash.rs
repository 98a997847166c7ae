//! 256-bit hashes: the type the chains' transaction and block ids use,
//! double-SHA-256 construction, and lower-case hex rendering.

use vstd::prelude::*;

#[allow(unused_imports)]
use sha2::Digest;

verus! {

/// The result of sha2's SHA-256 compression; it depends on the input
/// bytes alone.
pub uninterp spec fn sha256_of(data: Seq<u8>) -> Seq<u8>;

/// Relies on sha2's `Sha256::digest`: a 32-byte digest of the input.
#[verifier::external_body]
fn sha256(data: &[u8]) -> (r: [u8; 32])
    ensures
        r@ == sha256_of(data@),
{
    let digest = sha2::Sha256::digest(data);
    let mut out = [0u8; 32];
    out.copy_from_slice(&digest);
    out
}

/// A 256-bit hash, stored as its big-endian bytes.
#[derive(Clone, Copy, Eq, Debug)]
pub struct H256 {
    pub bytes: [u8; 32],
}

impl View for H256 {
    type V = Seq<u8>;

    open spec fn view(&self) -> Seq<u8> {
        self.bytes@
    }
}

impl PartialEq for H256 {
    fn eq(&self, other: &H256) -> (r: bool) {
        let mut i: usize = 0;
        while i < 32
            invariant
                i <= 32,
                forall|j: int| 0 <= j < i ==> self.bytes@[j] == other.bytes@[j],
            decreases 32 - i,
        {
            if self.bytes[i] != other.bytes[i] {
                return false;
            }
            i += 1;
        }
        proof {
            assert(self.bytes@ =~= other.bytes@);
        }
        true
    }
}

impl vstd::std_specs::cmp::PartialEqSpecImpl for H256 {
    open spec fn obeys_eq_spec() -> bool {
        true
    }

    open spec fn eq_spec(&self, other: &H256) -> bool {
        self.bytes@ == other.bytes@
    }
}

/// The hex digit for one value below 16, lower case.
pub open spec fn hex_digit(n: int) -> char {
    if n == 0 { '0' } else if n == 1 { '1' } else if n == 2 { '2' }
    else if n == 3 { '3' } else if n == 4 { '4' } else if n == 5 { '5' }
    else if n == 6 { '6' } else if n == 7 { '7' } else if n == 8 { '8' }
    else if n == 9 { '9' } else if n == 10 { 'a' } else if n == 11 { 'b' }
    else if n == 12 { 'c' } else if n == 13 { 'd' } else if n == 14 { 'e' }
    else { 'f' }
}

/// Lower-case hex of a byte string: two digits per byte, in order.
pub open spec fn hex_of_bytes(s: Seq<u8>) -> Seq<char>
    decreases s.len(),
{
    if s.len() == 0 {
        Seq::empty()
    } else {
        hex_of_bytes(s.drop_last()) + seq![
            hex_digit(s.last() as int / 16),
            hex_digit(s.last() as int % 16),
        ]
    }
}

/// One hex digit as a one-character string slice.
pub(crate) fn hex_digit_str(n: u8) -> (r: &'static str)
    requires
        n < 16,
    ensures
        r@ =~= seq![hex_digit(n as int)],
{
    proof {
        reveal_strlit("0"); reveal_strlit("1"); reveal_strlit("2");
        reveal_strlit("3"); reveal_strlit("4"); reveal_strlit("5");
        reveal_strlit("6"); reveal_strlit("7"); reveal_strlit("8");
        reveal_strlit("9"); reveal_strlit("a"); reveal_strlit("b");
        reveal_strlit("c"); reveal_strlit("d"); reveal_strlit("e");
        reveal_strlit("f");
    }
    match n {
        0 => "0", 1 => "1", 2 => "2", 3 => "3",
        4 => "4", 5 => "5", 6 => "6", 7 => "7",
        8 => "8", 9 => "9", 10 => "a", 11 => "b",
        12 => "c", 13 => "d", 14 => "e", _ => "f",
    }
}

/// Appends the lower-case hex rendering of `data` to `out`.
pub fn append_hex_of_bytes(out: &mut String, data: &[u8])
    ensures
        final(out)@ == old(out)@ + hex_of_bytes(data@),
{
    let ghost start = out@;
    let n = data.len();
    for i in 0..n
        invariant
            n == data@.len(),
            out@ == start + hex_of_bytes(data@.take(i as int)),
    {
        let b = data[i];
        out.append(hex_digit_str(b / 16));
        out.append(hex_digit_str(b % 16));
        proof {
            assert(data@.take(i + 1).drop_last() =~= data@.take(i as int));
            assert(data@.take(i + 1).last() == data@[i as int]);
        }
    }
    proof {
        assert(data@.take(n as int) =~= data@);
    }
}

impl H256 {
    /// Double SHA-256 of arbitrary data, the id construction Bitcoin
    /// uses.
    pub fn from_data(data: &[u8]) -> (r: H256)
        ensures
            r@ == sha256_of(sha256_of(data@)),
    {
        let first = sha256(data);
        let second = sha256(first.as_slice());
        H256 { bytes: second }
    }

    /// Wraps already-computed hash bytes.
    pub fn from_hash(data: [u8; 32]) -> (r: H256)
        ensures
            r@ == data@,
    {
        H256 { bytes: data }
    }

    /// The hash bytes as a fresh vector.
    pub fn to_vec(&self) -> (r: Vec<u8>)
        ensures
            r@ == self@,
    {
        let mut out: Vec<u8> = Vec::new();
        let n = self.bytes.len();
        for i in 0..n
            invariant
                n == 32,
            out@ == self.bytes@.take(i as int),
        {
            out.push(self.bytes[i]);
            proof {
                assert(self.bytes@.take(i + 1) =~= self.bytes@.take(i as int).push(
                    self.bytes@[i as int],
                ));
            }
        }
        proof {
            assert(self.bytes@.take(n as int) =~= self.bytes@);
        }
        out
    }

    /// `0x`-prefixed lower-case hex of the hash, the textual form the
    /// database and the JSON-RPC wire use.
    pub fn hex(&self) -> (r: String)
        ensures
            r@ == "0x"@ + hex_of_bytes(self@),
    {
        let mut out = String::from_str("0x");
        append_hex_of_bytes(&mut out, self.bytes.as_slice());
        out
    }
}

} // verus!
