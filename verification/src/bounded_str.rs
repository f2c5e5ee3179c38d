//! Strings with a fixed byte capacity, as stored in flash and typed on the
//! console.
use vstd::prelude::*;
use vstd::string::*;
use vstd::utf8::*;

verus! {

broadcast use encode_utf8_valid_utf8, encode_utf8_decode_utf8, decode_utf8_encode_utf8;

/// `core::str::from_utf8`: succeeds exactly when the bytes are valid UTF-8,
/// and the string it returns consists of those same bytes.
#[verifier::external_body]
pub(crate) fn str_from_utf8(bytes: &[u8]) -> (r: Option<&str>)
    ensures
        r is Some <==> valid_utf8(bytes@),
        r is Some ==> r->0.spec_bytes() == bytes@,
{
    core::str::from_utf8(bytes).ok()
}

/// A UTF-8 string of at most `N` bytes.
pub struct BoundedString<const N: usize> {
    s: String,
}

impl<const N: usize> View for BoundedString<N> {
    type V = Seq<u8>;

    /// The UTF-8 bytes of the string.
    closed spec fn view(&self) -> Seq<u8> {
        encode_utf8(self.s@)
    }
}

impl<const N: usize> BoundedString<N> {
    #[verifier::type_invariant]
    spec fn fits(self) -> bool {
        encode_utf8(self.s@).len() <= N
    }

    /// The empty string.
    pub fn new() -> (r: Self)
        ensures
            r@ == Seq::<u8>::empty(),
    {
        let s = String::new();
        assert(encode_utf8(s@) =~= Seq::<u8>::empty()) by {
            reveal_with_fuel(encode_utf8, 1);
        }
        BoundedString { s }
    }

    /// Copy `s`; fails when it is longer than `N` bytes.
    pub fn from_str(s: &str) -> (r: Result<Self, ()>)
        ensures
            r is Ok <==> s.spec_bytes().len() <= N,
            r is Ok ==> r->Ok_0@ == s.spec_bytes(),
    {
        if s.as_bytes().len() <= N {
            let owned = s.to_owned();
            assert(encode_utf8(owned@) == s.spec_bytes());
            Ok(BoundedString { s: owned })
        } else {
            Err(())
        }
    }

    /// Decode `bytes`; fails when they are not valid UTF-8 or longer than `N`.
    pub fn from_utf8(bytes: &[u8]) -> (r: Option<Self>)
        ensures
            r is Some <==> (valid_utf8(bytes@) && bytes@.len() <= N),
            r is Some ==> r->0@ == bytes@,
    {
        match str_from_utf8(bytes) {
            Some(s) => match Self::from_str(s) {
                Ok(b) => Some(b),
                Err(_) => None,
            },
            None => None,
        }
    }

    /// The string itself.
    pub fn as_str(&self) -> (r: &str)
        ensures
            r.spec_bytes() == self@,
    {
        self.s.as_str()
    }

    /// The UTF-8 bytes of the string.
    pub fn as_bytes(&self) -> (r: &[u8])
        ensures
            r@ == self@,
            r@.len() <= N,
            valid_utf8(r@),
    {
        proof {
            use_type_invariant(self);
        }
        self.s.as_str().as_bytes()
    }

    /// Length in bytes.
    pub fn len(&self) -> (r: usize)
        ensures
            r == self@.len(),
            r <= N,
    {
        proof {
            use_type_invariant(self);
        }
        self.s.as_str().as_bytes().len()
    }

    /// Whether the string holds no byte.
    pub fn is_empty(&self) -> (r: bool)
        ensures
            r == (self@.len() == 0),
    {
        self.len() == 0
    }

    /// A copy of the string.
    pub fn duplicate(&self) -> (r: Self)
        ensures
            r@ == self@,
    {
        proof {
            use_type_invariant(self);
        }
        let s = self.s.as_str().to_owned();
        BoundedString { s }
    }

    /// Whether both strings hold the same bytes.
    pub fn same(&self, other: &Self) -> (r: bool)
        ensures
            r == (self@ == other@),
    {
        bytes_equal(self.as_bytes(), other.as_bytes())
    }
}

/// Whether two byte slices are equal.
pub fn bytes_equal(a: &[u8], b: &[u8]) -> (r: bool)
    ensures
        r == (a@ == b@),
{
    if a.len() != b.len() {
        return false;
    }
    let mut i: usize = 0;
    while i < a.len()
        invariant
            a@.len() == b@.len(),
            i <= a@.len(),
            forall|k: int| 0 <= k < i ==> a@[k] == b@[k],
        decreases a@.len() - i,
    {
        if a[i] != b[i] {
            return false;
        }
        i = i + 1;
    }
    assert(a@ =~= b@);
    true
}

} // verus!
