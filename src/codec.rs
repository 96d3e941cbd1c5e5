//! Conversion between zero-terminated boundary byte strings and the library's
//! path and text values.

use vstd::prelude::*;
use vstd::utf8::*;

verus! {

/// No byte of `b` is zero.
pub open spec fn nul_free(b: Seq<u8>) -> bool {
    forall|i: int| 0 <= i < b.len() ==> b[i] != 0
}

/// `raw` holds a zero byte: it can be read as a boundary string.
pub open spec fn has_nul(raw: Seq<u8>) -> bool {
    exists|i: int| 0 <= i < raw.len() && raw[i] == 0
}

/// `body` is what `raw` holds before its first zero byte.
pub open spec fn body_of(raw: Seq<u8>, body: Seq<u8>) -> bool {
    &&& body.len() < raw.len()
    &&& raw.take(body.len() as int) == body
    &&& raw[body.len() as int] == 0
    &&& nul_free(body)
}

/// The bytes of the boundary string `raw`: everything before its first zero byte.
pub open spec fn c_body(raw: Seq<u8>) -> Seq<u8>
    recommends
        has_nul(raw),
{
    choose|body: Seq<u8>| body_of(raw, body)
}

/// `raw` is a boundary string whose bytes are valid UTF-8.
pub open spec fn is_c_text(raw: Seq<u8>) -> bool {
    has_nul(raw) && valid_utf8(c_body(raw))
}

/// A boundary string has exactly one body.
pub proof fn lemma_body_unique(raw: Seq<u8>, a: Seq<u8>, b: Seq<u8>)
    requires
        body_of(raw, a),
        body_of(raw, b),
    ensures
        a == b,
{
    if a.len() < b.len() {
        assert(b[a.len() as int] == raw[a.len() as int]);
    } else if b.len() < a.len() {
        assert(a[b.len() as int] == raw[b.len() as int]);
    }
}

/// Where `raw` holds a zero byte, `c_body` picks the bytes before the first one.
pub proof fn lemma_c_body(raw: Seq<u8>, body: Seq<u8>)
    requires
        body_of(raw, body),
    ensures
        has_nul(raw),
        c_body(raw) == body,
{
    assert(raw[body.len() as int] == 0);
    let c = c_body(raw);
    lemma_body_unique(raw, c, body);
}

/// A path as the boundary passes it: its bytes, with no zero byte among them.
///
/// The value is stored followed by one zero byte, so that a reference into its
/// storage is itself a valid boundary string.
#[derive(Debug)]
pub struct SassPath {
    bytes: Vec<u8>,
}

impl SassPath {
    #[verifier::type_invariant]
    spec fn well_formed(self) -> bool {
        &&& self.bytes@.len() >= 1
        &&& self.bytes@.last() == 0
        &&& nul_free(self.bytes@.drop_last())
    }
}

impl View for SassPath {
    type V = Seq<u8>;

    closed spec fn view(&self) -> Seq<u8> {
        self.bytes@.drop_last()
    }
}

impl SassPath {
    /// The empty path.
    pub fn empty() -> (r: SassPath)
        ensures
            r@ == Seq::<u8>::empty(),
    {
        let r = SassPath { bytes: vec![0u8] };
        assert(r.bytes@.drop_last() =~= Seq::<u8>::empty());
        r
    }

    /// Builds a path from its bytes; `None` where one of them is zero.
    pub fn from_bytes(body: &[u8]) -> (r: Option<SassPath>)
        ensures
            r is Some <==> nul_free(body@),
            r matches Some(p) ==> p@ == body@,
    {
        let mut bytes: Vec<u8> = Vec::new();
        let mut i: usize = 0;
        while i < body.len()
            invariant
                i <= body@.len(),
                bytes@ == body@.take(i as int),
                nul_free(bytes@),
            decreases body@.len() - i,
        {
            if body[i] == 0 {
                return None;
            }
            bytes.push(body[i]);
            i += 1;
            assert(bytes@ =~= body@.take(i as int));
        }
        assert(bytes@ =~= body@);
        let ghost prefix = bytes@;
        bytes.push(0u8);
        assert(bytes@.drop_last() =~= prefix);
        Some(SassPath { bytes })
    }

    /// Decodes a boundary string: the bytes before the first zero byte.
    /// `None` where `raw` holds no zero byte.
    pub fn from_c_bytes(raw: &[u8]) -> (r: Option<SassPath>)
        ensures
            r is Some <==> has_nul(raw@),
            r matches Some(p) ==> p@ == c_body(raw@),
    {
        let mut bytes: Vec<u8> = Vec::new();
        let mut i: usize = 0;
        while i < raw.len()
            invariant
                i <= raw@.len(),
                bytes@ == raw@.take(i as int),
                nul_free(bytes@),
            decreases raw@.len() - i,
        {
            if raw[i] == 0 {
                let ghost prefix = bytes@;
                proof {
                    lemma_c_body(raw@, prefix);
                }
                bytes.push(0u8);
                assert(bytes@.drop_last() =~= prefix);
                return Some(SassPath { bytes });
            }
            bytes.push(raw[i]);
            i += 1;
            assert(bytes@ =~= raw@.take(i as int));
        }
        assert(bytes@ =~= raw@);
        None
    }

    /// The path as a boundary string, borrowed from the path's own storage.
    pub fn as_bytes_with_nul(&self) -> (r: &[u8])
        ensures
            r@ == self@.push(0),
            body_of(r@, self@),
    {
        proof {
            use_type_invariant(self);
        }
        assert(self.bytes@ =~= self.bytes@.drop_last().push(0));
        assert(self.bytes@.take(self@.len() as int) =~= self@);
        self.bytes.as_slice()
    }

    /// The number of bytes of the path.
    pub fn len(&self) -> (r: usize)
        ensures
            r == self@.len(),
    {
        proof {
            use_type_invariant(self);
        }
        self.bytes.len() - 1
    }

    /// Whether the path has no bytes.
    pub fn is_empty(&self) -> (r: bool)
        ensures
            r == (self@.len() == 0),
    {
        self.len() == 0
    }

    /// The byte at `i`.
    pub fn byte_at(&self, i: usize) -> (r: u8)
        requires
            i < self@.len(),
        ensures
            r == self@[i as int],
    {
        proof {
            use_type_invariant(self);
        }
        self.bytes[i]
    }

    /// Whether two paths hold the same bytes.
    pub fn same_as(&self, other: &SassPath) -> (r: bool)
        ensures
            r == (self@ == other@),
    {
        let n = self.len();
        if n != other.len() {
            return false;
        }
        let mut i: usize = 0;
        while i < n
            invariant
                n == self@.len(),
                n == other@.len(),
                i <= n,
                forall|k: int| 0 <= k < i ==> self@[k] == other@[k],
            decreases n - i,
        {
            if self.byte_at(i) != other.byte_at(i) {
                return false;
            }
            i += 1;
        }
        assert(self@ =~= other@);
        true
    }

    /// A path with the same bytes, in storage of its own.
    pub fn duplicate(&self) -> (r: SassPath)
        ensures
            r@ == self@,
    {
        proof {
            use_type_invariant(self);
        }
        let mut bytes: Vec<u8> = Vec::new();
        let mut i: usize = 0;
        while i < self.bytes.len()
            invariant
                self.bytes@.len() >= 1,
                i <= self.bytes@.len(),
                bytes@ == self.bytes@.take(i as int),
            decreases self.bytes@.len() - i,
        {
            bytes.push(self.bytes[i]);
            i += 1;
            assert(bytes@ =~= self.bytes@.take(i as int));
        }
        assert(bytes@ =~= self.bytes@);
        SassPath { bytes }
    }

    /// Appends `suffix` to the path.
    pub fn append(&mut self, suffix: &[u8])
        requires
            nul_free(suffix@),
        ensures
            final(self)@ == old(self)@ + suffix@,
    {
        proof {
            use_type_invariant(&*self);
        }
        let ghost start = self@;
        let mut bytes: Vec<u8> = Vec::new();
        let n = self.len();
        let mut i: usize = 0;
        while i < n
            invariant
                n == start.len(),
                start == self@,
                i <= n,
                bytes@ == start.take(i as int),
            decreases n - i,
        {
            bytes.push(self.byte_at(i));
            i += 1;
            assert(bytes@ =~= start.take(i as int));
        }
        let mut j: usize = 0;
        while j < suffix.len()
            invariant
                j <= suffix@.len(),
                bytes@ == start + suffix@.take(j as int),
            decreases suffix@.len() - j,
        {
            bytes.push(suffix[j]);
            j += 1;
            assert(bytes@ =~= start + suffix@.take(j as int));
        }
        assert(suffix@.take(suffix@.len() as int) =~= suffix@);
        let ghost joined = bytes@;
        bytes.push(0u8);
        assert(bytes@.drop_last() =~= joined);
        assert(nul_free(joined)) by {
            assert forall|k: int| 0 <= k < joined.len() implies joined[k] != 0 by {
                if k < start.len() {
                    assert(joined[k] == start[k]);
                } else {
                    assert(joined[k] == suffix@[k - start.len()]);
                }
            }
        }
        *self = SassPath { bytes };
    }

    /// The path as text, where its bytes are valid UTF-8; `None` otherwise.
    /// Nothing is replaced or dropped.
    pub fn to_text(&self) -> (r: Option<String>)
        ensures
            r is Some <==> valid_utf8(self@),
            r matches Some(s) ==> s@ == decode_utf8(self@),
    {
        proof {
            use_type_invariant(self);
        }
        let raw = self.as_bytes_with_nul();
        let n = self.len();
        let (body, _) = raw.split_at(n);
        assert(body@ =~= self@);
        utf8_to_string(body)
    }
}

/// Relies on std::str::from_utf8: `Ok` exactly for valid UTF-8, holding the
/// characters that the bytes encode.
#[verifier::external_body]
fn utf8_to_string(b: &[u8]) -> (r: Option<String>)
    ensures
        r is Some <==> valid_utf8(b@),
        r matches Some(s) ==> s@ == decode_utf8(b@),
{
    match std::str::from_utf8(b) {
        Ok(s) => Some(s.to_string()),
        Err(_) => None,
    }
}

/// Decodes a boundary string as text: `None` where `raw` holds no zero byte or
/// the bytes before it are not valid UTF-8.
pub fn decode_c_text(raw: &[u8]) -> (r: Option<String>)
    ensures
        r is Some <==> is_c_text(raw@),
        r matches Some(s) ==> s@ == decode_utf8(c_body(raw@)),
{
    match SassPath::from_c_bytes(raw) {
        None => None,
        Some(p) => p.to_text(),
    }
}

} // verus!
