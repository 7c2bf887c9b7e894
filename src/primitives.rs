//! Fixed-length identities and signatures, and the byte strings they are carried in.

use vstd::prelude::*;

verus! {

/// The public key that identifies a candidate author (32 bytes).
#[derive(Clone, Copy, Debug, PartialEq, Eq)]
pub struct Identity {
    pub bytes: [u8; 32],
}

/// A signature over a byte string (64 bytes).
#[derive(Clone, Copy, Debug, PartialEq, Eq)]
pub struct Signature {
    pub bytes: [u8; 64],
}

impl View for Identity {
    type V = Seq<u8>;

    open spec fn view(&self) -> Seq<u8> {
        self.bytes@
    }
}

impl View for Signature {
    type V = Seq<u8>;

    open spec fn view(&self) -> Seq<u8> {
        self.bytes@
    }
}

/// The bytes of an optional identity.
pub open spec fn identity_bytes(o: Option<Identity>) -> Option<Seq<u8>> {
    match o {
        Some(id) => Some(id@),
        None => None,
    }
}

/// The bytes of an optional signature.
pub open spec fn signature_bytes(o: Option<Signature>) -> Option<Seq<u8>> {
    match o {
        Some(s) => Some(s@),
        None => None,
    }
}

/// Two identities are equal exactly when their bytes are.
pub proof fn lemma_identity_view_injective(a: Identity, b: Identity)
    ensures
        (a == b) <==> (a@ == b@),
{
    if a@ == b@ {
        assert(a.bytes =~= b.bytes);
    }
}

/// Two signatures are equal exactly when their bytes are.
pub proof fn lemma_signature_view_injective(a: Signature, b: Signature)
    ensures
        (a == b) <==> (a@ == b@),
{
    if a@ == b@ {
        assert(a.bytes =~= b.bytes);
    }
}

/// The identity whose bytes are `s` (of length 32).
pub open spec fn to_identity(s: Seq<u8>) -> Identity
    recommends
        s.len() == 32,
{
    choose|id: Identity| id@ == s
}

/// The identities held by those of `raw` that are exactly 32 bytes long, in order.
pub open spec fn identities_in(raw: Seq<Vec<u8>>) -> Seq<Identity>
    decreases raw.len(),
{
    if raw.len() == 0 {
        Seq::empty()
    } else if raw.last()@.len() == 32 {
        identities_in(raw.drop_last()).push(to_identity(raw.last()@))
    } else {
        identities_in(raw.drop_last())
    }
}

impl Identity {
    /// The identity held by `data`, which must be exactly 32 bytes long.
    pub fn from_slice(data: &[u8]) -> (r: Option<Identity>)
        ensures
            identity_bytes(r) == if data@.len() == 32 { Some(data@) } else { None::<Seq<u8>> },
            r matches Some(id) ==> id == to_identity(data@),
    {
        if data.len() != 32 {
            return None;
        }
        let mut bytes = [0u8; 32];
        let mut i: usize = 0;
        while i < 32
            invariant
                data@.len() == 32,
                0 <= i <= 32,
                forall|j: int| 0 <= j < i ==> bytes@[j] == data@[j],
            decreases 32 - i,
        {
            bytes[i] = data[i];
            i += 1;
        }
        assert(bytes@ =~= data@);
        let id = Identity { bytes };
        proof {
            lemma_identity_view_injective(id, to_identity(data@));
        }
        Some(id)
    }

    /// The 32 bytes of the key.
    pub fn to_vec(&self) -> (r: Vec<u8>)
        ensures
            r@ == self@,
    {
        let mut out: Vec<u8> = Vec::new();
        let mut i: usize = 0;
        while i < 32
            invariant
                0 <= i <= 32,
                out@ =~= self@.take(i as int),
            decreases 32 - i,
        {
            out.push(self.bytes[i]);
            i += 1;
        }
        assert(out@ =~= self@);
        out
    }

    /// Whether `self` and `other` are the same key.
    pub fn same_as(&self, other: &Identity) -> (r: bool)
        ensures
            r == (*self == *other),
    {
        let mut i: usize = 0;
        while i < 32
            invariant
                0 <= i <= 32,
                forall|j: int| 0 <= j < i ==> self.bytes@[j] == other.bytes@[j],
            decreases 32 - i,
        {
            if self.bytes[i] != other.bytes[i] {
                return false;
            }
            i += 1;
        }
        assert(self.bytes =~= other.bytes);
        true
    }
}

/// The identities held by the raw keys `raw`: each key of exactly 32 bytes, in order; keys
/// of another length are passed over.
pub fn identities_from_keys(raw: &Vec<Vec<u8>>) -> (r: Vec<Identity>)
    ensures
        r@ == identities_in(raw@),
{
    let mut out: Vec<Identity> = Vec::new();
    let mut i: usize = 0;
    while i < raw.len()
        invariant
            0 <= i <= raw@.len(),
            out@ == identities_in(raw@.take(i as int)),
        decreases raw@.len() - i,
    {
        assert(raw@.take(i as int + 1).drop_last() =~= raw@.take(i as int));
        assert(raw@.take(i as int + 1).last() == raw@[i as int]);
        match Identity::from_slice(raw[i].as_slice()) {
            Some(id) => out.push(id),
            None => {},
        }
        i += 1;
    }
    assert(raw@.take(raw@.len() as int) =~= raw@);
    out
}

impl Signature {
    /// The signature held by `data`, which must be exactly 64 bytes long.
    pub fn from_slice(data: &[u8]) -> (r: Option<Signature>)
        ensures
            signature_bytes(r) == if data@.len() == 64 { Some(data@) } else { None::<Seq<u8>> },
    {
        if data.len() != 64 {
            return None;
        }
        let mut bytes = [0u8; 64];
        let mut i: usize = 0;
        while i < 64
            invariant
                data@.len() == 64,
                0 <= i <= 64,
                forall|j: int| 0 <= j < i ==> bytes@[j] == data@[j],
            decreases 64 - i,
        {
            bytes[i] = data[i];
            i += 1;
        }
        assert(bytes@ =~= data@);
        Some(Signature { bytes })
    }

    /// The 64 bytes of the signature.
    pub fn to_vec(&self) -> (r: Vec<u8>)
        ensures
            r@ == self@,
    {
        let mut out: Vec<u8> = Vec::new();
        let mut i: usize = 0;
        while i < 64
            invariant
                0 <= i <= 64,
                out@ =~= self@.take(i as int),
            decreases 64 - i,
        {
            out.push(self.bytes[i]);
            i += 1;
        }
        assert(out@ =~= self@);
        out
    }
}

} // verus!
