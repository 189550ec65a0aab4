//! The value slot, its kind tag and its borrowed view.

use vstd::prelude::*;
use vstd::string::*;
use crate::encoding::{encode_prefixed, hex_prefixed};

verus! {

/// What the bytes held by a [`HashBuilderValue`] stand for.
#[derive(Clone, Copy, Debug, PartialEq, Eq, Structural)]
pub enum HashBuilderValueKind {
    /// Value of a leaf node.
    Bytes,
    /// Hash of adjacent nodes.
    Hash,
}

impl Default for HashBuilderValueKind {
    fn default() -> (r: Self)
        ensures
            r == HashBuilderValueKind::Bytes,
    {
        HashBuilderValueKind::Bytes
    }
}

/// The name under which a kind is rendered.
pub open spec fn kind_name(kind: HashBuilderValueKind) -> Seq<char> {
    match kind {
        HashBuilderValueKind::Bytes => seq!['B', 'y', 't', 'e', 's'],
        HashBuilderValueKind::Hash => seq!['H', 'a', 's', 'h'],
    }
}

/// `Bytes(0x..)` or `Hash(0x..)`: the kind's name and the hex of the bytes.
pub open spec fn rendering(kind: HashBuilderValueKind, bytes: Seq<u8>) -> Seq<char> {
    kind_name(kind) + seq!['('] + hex_prefixed(bytes) + seq![')']
}

/// A borrowed view of a hash builder value.
pub enum HashBuilderValueRef<'a> {
    /// Value of a leaf node.
    Bytes(&'a [u8]),
    /// Hash of adjacent nodes.
    Hash(&'a [u8; 32]),
}

impl<'a> HashBuilderValueRef<'a> {
    /// The kind of value that the view shows.
    pub open spec fn spec_kind(&self) -> HashBuilderValueKind {
        match self {
            HashBuilderValueRef::Bytes(_) => HashBuilderValueKind::Bytes,
            HashBuilderValueRef::Hash(_) => HashBuilderValueKind::Hash,
        }
    }

    /// The bytes that the view shows.
    pub open spec fn bytes(&self) -> Seq<u8> {
        match self {
            HashBuilderValueRef::Bytes(b) => b@,
            HashBuilderValueRef::Hash(h) => h@,
        }
    }

    /// Returns the value as a slice.
    pub fn as_slice(&self) -> (r: &'a [u8])
        ensures
            r@ == self.bytes(),
    {
        match *self {
            HashBuilderValueRef::Bytes(bytes) => bytes,
            HashBuilderValueRef::Hash(hash) => hash.as_slice(),
        }
    }

    /// Returns the kind of the value.
    fn kind(&self) -> (r: HashBuilderValueKind)
        ensures
            r == self.spec_kind(),
    {
        match *self {
            HashBuilderValueRef::Bytes(_) => HashBuilderValueKind::Bytes,
            HashBuilderValueRef::Hash(_) => HashBuilderValueKind::Hash,
        }
    }

    /// Renders the view as `Bytes(0x..)` or `Hash(0x..)`, in lowercase hex.
    pub fn debug_string(&self) -> (r: String)
        ensures
            r@ == rendering(self.spec_kind(), self.bytes()),
    {
        let mut out = match *self {
            HashBuilderValueRef::Bytes(_) => String::from_str("Bytes("),
            HashBuilderValueRef::Hash(_) => String::from_str("Hash("),
        };
        let hex = encode_prefixed(self.as_slice());
        out.append(hex.as_str());
        out.append(")");
        proof {
            reveal_strlit("Bytes(");
            reveal_strlit("Hash(");
            reveal_strlit(")");
            assert(kind_name(self.spec_kind()) + seq!['('] + hex_prefixed(self.bytes()) + seq![')']
                =~= out@);
        }
        out
    }
}

/// Thirty-two zero bytes: the cached hash of a value that holds raw bytes.
pub open spec fn zero_hash() -> Seq<u8> {
    Seq::new(32, |i: int| 0u8)
}

/// Whether two byte slices hold the same bytes.
fn bytes_equal(a: &[u8], b: &[u8]) -> (r: bool)
    ensures
        r == (a@ == b@),
{
    if a.len() != b.len() {
        return false;
    }
    let mut i: usize = 0;
    while i < a.len()
        invariant
            a@.len() == b@.len(),
            i <= a@.len(),
            a@.subrange(0, i as int) == b@.subrange(0, i as int),
        decreases a@.len() - i,
    {
        if a[i] != b[i] {
            assert(a@[i as int] != b@[i as int]);
            return false;
        }
        assert(a@.subrange(0, i + 1) == a@.subrange(0, i as int).push(a@[i as int]));
        assert(b@.subrange(0, i + 1) == b@.subrange(0, i as int).push(b@[i as int]));
        i = i + 1;
    }
    assert(a@ == a@.subrange(0, a@.len() as int));
    assert(b@ == b@.subrange(0, b@.len() as int));
    true
}

/// Relies on `Vec::capacity`: the number of elements the buffer can hold
/// without reallocating, which the allocator decides.
#[verifier::external_body]
fn vec_capacity(v: &Vec<u8>) -> (r: usize) {
    v.capacity()
}

/// A hash builder value: the raw bytes of a leaf, or the hash of adjacent
/// nodes, stored so that one allocation serves many successive values.
#[derive(Clone)]
pub struct HashBuilderValue {
    /// The bytes of either the leaf node value or the hash of adjacent nodes.
    buf: Vec<u8>,
    /// The kind of value that is stored in `buf`.
    kind: HashBuilderValueKind,
    /// A copy of `buf` while the kind is `Hash`, zero otherwise.
    hash: [u8; 32],
}

impl HashBuilderValue {
    /// The bytes held in the buffer.
    pub closed spec fn buf_view(&self) -> Seq<u8> {
        self.buf@
    }

    /// The kind of the held value.
    pub closed spec fn kind_view(&self) -> HashBuilderValueKind {
        self.kind
    }

    /// The cached hash.
    pub closed spec fn hash_view(&self) -> Seq<u8> {
        self.hash@
    }

    /// The bytes that a borrowed view of the value shows: the cached hash
    /// for a hash, the buffer otherwise.
    pub closed spec fn view_bytes(&self) -> Seq<u8> {
        match self.kind {
            HashBuilderValueKind::Bytes => self.buf@,
            HashBuilderValueKind::Hash => self.hash@,
        }
    }

    /// The buffer, the kind and the cached hash agree: a hash is held as
    /// exactly the 32 bytes of the cache, raw bytes leave the cache zero, and
    /// so the view shows the buffer whatever the kind.
    pub open spec fn wf(&self) -> bool {
        &&& self.hash_view().len() == 32
        &&& self.kind_view() == HashBuilderValueKind::Hash ==> self.buf_view() == self.hash_view()
        &&& self.kind_view() == HashBuilderValueKind::Bytes ==> self.hash_view() == zero_hash()
        &&& self.view_bytes() == self.buf_view()
    }

    /// Field-by-field equality of buffer contents, kind and cached hash.
    pub open spec fn same_as(&self, other: &Self) -> bool {
        &&& self.buf_view() == other.buf_view()
        &&& self.kind_view() == other.kind_view()
        &&& self.hash_view() == other.hash_view()
    }

    /// Creates a new empty value.
    pub fn new() -> (r: Self)
        ensures
            r.wf(),
            r.kind_view() == HashBuilderValueKind::Bytes,
            r.buf_view() == Seq::<u8>::empty(),
    {
        Self::default()
    }

    /// Returns the value as a reference.
    pub fn as_ref(&self) -> (r: HashBuilderValueRef<'_>)
        ensures
            r.spec_kind() == self.kind_view(),
            r.bytes() == self.view_bytes(),
    {
        match self.kind {
            HashBuilderValueKind::Bytes => HashBuilderValueRef::Bytes(self.buf.as_slice()),
            HashBuilderValueKind::Hash => HashBuilderValueRef::Hash(&self.hash),
        }
    }

    /// Returns the value as a slice.
    pub fn as_slice(&self) -> (r: &[u8])
        ensures
            r@ == self.buf_view(),
    {
        self.buf.as_slice()
    }

    /// Like `set_from_ref`, but takes ownership of the bytes.
    pub fn set_bytes_owned(&mut self, bytes: Vec<u8>)
        ensures
            final(self).wf(),
            final(self).kind_view() == HashBuilderValueKind::Bytes,
            final(self).buf_view() == bytes@,
    {
        self.buf = bytes;
        self.kind = HashBuilderValueKind::Bytes;
        self.hash = [0u8; 32];
        assert(self.hash@ =~= zero_hash());
    }

    /// Sets the value from the given view, reusing the buffer.
    pub fn set_from_ref(&mut self, value: HashBuilderValueRef<'_>)
        ensures
            final(self).wf(),
            final(self).kind_view() == value.spec_kind(),
            final(self).buf_view() == value.bytes(),
    {
        self.buf.clear();
        self.buf.extend_from_slice(value.as_slice());
        self.kind = value.kind();
        self.hash = match value {
            HashBuilderValueRef::Bytes(_) => [0u8; 32],
            HashBuilderValueRef::Hash(hash) => *hash,
        };
        assert(self.buf@ =~= value.bytes());
        assert(value.spec_kind() == HashBuilderValueKind::Bytes ==> self.hash@ =~= zero_hash());
    }

    /// Clears the value, keeping the buffer's allocation.
    pub fn clear(&mut self)
        ensures
            final(self).wf(),
            final(self).kind_view() == HashBuilderValueKind::Bytes,
            final(self).buf_view() == Seq::<u8>::empty(),
            final(self).view_bytes() == Seq::<u8>::empty(),
    {
        self.buf.clear();
        self.kind = HashBuilderValueKind::default();
        self.hash = [0u8; 32];
        assert(self.hash@ =~= zero_hash());
    }

    /// Builds a value from a buffer and a kind, as a decoder or a generator
    /// of values has them; the cached hash is taken from the buffer. A hash
    /// must be exactly 32 bytes long: otherwise there is no value.
    pub fn from_parts(buf: Vec<u8>, kind: HashBuilderValueKind) -> (r: Option<Self>)
        ensures
            r is Some <==> (kind == HashBuilderValueKind::Bytes || buf@.len() == 32),
            r matches Some(v) ==> v.wf() && v.kind_view() == kind && v.buf_view() == buf@,
    {
        match kind {
            HashBuilderValueKind::Bytes => {
                let mut v = Self::new();
                v.set_bytes_owned(buf);
                Some(v)
            },
            HashBuilderValueKind::Hash => {
                if buf.len() != 32 {
                    return None;
                }
                let mut hash = [0u8; 32];
                let mut i: usize = 0;
                while i < 32
                    invariant
                        buf@.len() == 32,
                        hash@.len() == 32,
                        i <= 32,
                        forall|j: int| 0 <= j < i ==> hash@[j] == buf@[j],
                    decreases 32 - i,
                {
                    hash[i] = buf[i];
                    i = i + 1;
                }
                assert(hash@ =~= buf@);
                Some(Self { buf, kind, hash })
            },
        }
    }

    /// The number of bytes the buffer can hold without reallocating.
    pub fn capacity(&self) -> usize {
        vec_capacity(&self.buf)
    }

    /// Renders the value through its view, as `Bytes(0x..)` or `Hash(0x..)`.
    pub fn debug_string(&self) -> (r: String)
        ensures
            r@ == rendering(self.kind_view(), self.view_bytes()),
    {
        self.as_ref().debug_string()
    }
}

impl Default for HashBuilderValue {
    fn default() -> (r: Self)
        ensures
            r.wf(),
            r.kind_view() == HashBuilderValueKind::Bytes,
            r.buf_view() == Seq::<u8>::empty(),
    {
        let r = Self {
            buf: Vec::with_capacity(128),
            kind: HashBuilderValueKind::default(),
            hash: [0u8; 32],
        };
        assert(r.hash@ =~= zero_hash());
        r
    }
}

impl PartialEq for HashBuilderValue {
    fn eq(&self, other: &Self) -> (r: bool) {
        bytes_equal(self.buf.as_slice(), other.buf.as_slice()) && self.kind == other.kind
            && bytes_equal(self.hash.as_slice(), other.hash.as_slice())
    }
}

impl vstd::std_specs::cmp::PartialEqSpecImpl for HashBuilderValue {
    open spec fn obeys_eq_spec() -> bool {
        true
    }

    open spec fn eq_spec(&self, other: &Self) -> bool {
        self.same_as(other)
    }
}

impl Eq for HashBuilderValue {
}

/// Kind and buffer stay in step: a well-formed value that holds a hash holds
/// exactly 32 bytes, equal to its cached hash, and its view shows the buffer
/// whatever the kind. Every constructor and mutator returns a well-formed
/// value, so this holds after any sequence of calls.
pub proof fn lemma_kind_buffer_sync(v: &HashBuilderValue)
    requires
        v.wf(),
    ensures
        v.kind_view() == HashBuilderValueKind::Hash ==> v.buf_view().len() == 32 && v.buf_view()
            == v.hash_view(),
        v.view_bytes() == v.buf_view(),
{
}

/// Copying a value through its view gives an equal value: whatever
/// `set_from_ref(v.as_ref())` leaves behind is equal to `v`.
pub proof fn lemma_round_trip_through_view(v: &HashBuilderValue, copy: &HashBuilderValue)
    requires
        v.wf(),
        copy.wf(),
        copy.kind_view() == v.kind_view(),
        copy.buf_view() == v.view_bytes(),
    ensures
        copy.same_as(v),
{
}

/// Equality of well-formed values is equality of kind and bytes: the same
/// bytes held as raw bytes and as a hash are two different values.
pub proof fn lemma_equality_is_kind_and_bytes(a: &HashBuilderValue, b: &HashBuilderValue)
    requires
        a.wf(),
        b.wf(),
    ensures
        a.same_as(b) <==> (a.kind_view() == b.kind_view() && a.buf_view() == b.buf_view()),
{
}

} // verus!
