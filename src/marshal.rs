use vstd::prelude::*;
use vstd::utf8::encode_utf8;

use crate::error::HostError;

verus! {

/// The UTF-8 bytes of a text value.
pub open spec fn text_bytes(t: Seq<char>) -> Seq<u8> {
    encode_utf8(t)
}

/// Whether a byte sequence holds a null byte.
pub open spec fn has_nul(b: Seq<u8>) -> bool {
    exists|i: int| 0 <= i < b.len() && b[i] == 0u8
}

/// The null-terminated form of a byte sequence.
pub open spec fn c_string(b: Seq<u8>) -> Seq<u8> {
    b.push(0u8)
}

/// What marshaling a text value gives: its null-terminated bytes, or
/// `Encoding` where the text holds a null byte of its own.
pub open spec fn byte_string_of(t: Seq<char>) -> Result<Seq<u8>, HostError> {
    if has_nul(text_bytes(t)) {
        Err(HostError::Encoding)
    } else {
        Ok(c_string(text_bytes(t)))
    }
}

/// Text that holds a null byte is always refused with `Encoding`.
pub proof fn lemma_nul_text_is_refused(t: Seq<char>)
    requires
        has_nul(text_bytes(t)),
    ensures
        byte_string_of(t) == Err::<Seq<u8>, HostError>(HostError::Encoding),
{
}

/// Converts `text` into the null-terminated byte buffer that the foreign
/// calls take. Text with an embedded null byte is refused with `Encoding`,
/// since the terminator would silently cut it short.
pub fn to_byte_string(text: &str) -> (r: Result<Vec<u8>, HostError>)
    ensures
        match r {
            Ok(buf) => byte_string_of(text@) == Ok::<Seq<u8>, HostError>(buf@),
            Err(e) => byte_string_of(text@) == Err::<Seq<u8>, HostError>(e),
        },
{
    let bytes: &[u8] = text.as_bytes();
    let mut buf: Vec<u8> = Vec::new();
    let mut i: usize = 0;
    while i < bytes.len()
        invariant
            bytes@ == text_bytes(text@),
            i <= bytes@.len(),
            buf@ == bytes@.subrange(0, i as int),
            forall|j: int| 0 <= j < i ==> bytes@[j] != 0u8,
        decreases bytes.len() - i,
    {
        if bytes[i] == 0u8 {
            return Err(HostError::Encoding);
        }
        buf.push(bytes[i]);
        i = i + 1;
    }
    assert(buf@ == bytes@);
    buf.push(0u8);
    Ok(buf)
}

/// An ordered collection of key/value text pairs, each key present once.
pub struct PropertyMap {
    pairs: Vec<(String, String)>,
}

/// Whether some pair of `pairs` has the key `k`.
pub open spec fn has_key(pairs: Seq<(Seq<char>, Seq<char>)>, k: Seq<char>) -> bool {
    exists|i: int| 0 <= i < pairs.len() && pairs[i].0 == k
}

/// Whether no two pairs of `pairs` share a key.
pub open spec fn keys_distinct(pairs: Seq<(Seq<char>, Seq<char>)>) -> bool {
    forall|i: int, j: int|
        0 <= i < pairs.len() && 0 <= j < pairs.len() && i != j ==> pairs[i].0 != pairs[j].0
}

impl View for PropertyMap {
    type V = Seq<(Seq<char>, Seq<char>)>;

    closed spec fn view(&self) -> Seq<(Seq<char>, Seq<char>)> {
        Seq::new(self.pairs@.len(), |i: int| (self.pairs@[i].0@, self.pairs@[i].1@))
    }
}

impl PropertyMap {
    /// Keys are unique.
    pub open spec fn wf(&self) -> bool {
        keys_distinct(self@)
    }

    /// An empty map.
    pub fn new() -> (m: PropertyMap)
        ensures
            m@ == Seq::<(Seq<char>, Seq<char>)>::empty(),
            m.wf(),
    {
        let m = PropertyMap { pairs: Vec::new() };
        assert(m@ =~= Seq::<(Seq<char>, Seq<char>)>::empty());
        m
    }

    /// The number of pairs.
    pub fn len(&self) -> (n: usize)
        ensures
            n == self@.len(),
    {
        self.pairs.len()
    }

    /// Sets `key` to `value`: the pair of that key, if there is one, takes
    /// the new value in place; otherwise the pair is added at the end.
    pub fn insert(&mut self, key: &str, value: &str)
        requires
            old(self).wf(),
        ensures
            final(self).wf(),
            has_key(old(self)@, key@) ==> exists|i: int|
                0 <= i < old(self)@.len() && old(self)@[i].0 == key@ && final(self)@ == old(
                    self,
                )@.update(i, (key@, value@)),
            !has_key(old(self)@, key@) ==> final(self)@ == old(self)@.push((key@, value@)),
    {
        let k: String = key.to_owned();
        let v: String = value.to_owned();
        let mut i: usize = 0;
        while i < self.pairs.len()
            invariant
                self == old(self),
                old(self).wf(),
                k@ == key@,
                v@ == value@,
                i <= self@.len(),
                forall|j: int| 0 <= j < i ==> self@[j].0 != key@,
            decreases self.pairs.len() - i,
        {
            if self.pairs[i].0 == k {
                assert(self@[i as int].0 == key@);
                let ghost entry = (k, v);
                self.pairs[i] = (k, v);
                assert(self.pairs@ == old(self).pairs@.update(i as int, entry));
                assert(self@ =~= old(self)@.update(i as int, (key@, value@)));
                assert(keys_distinct(self@)) by {
                    assert forall|a: int, b: int|
                        0 <= a < self@.len() && 0 <= b < self@.len() && a != b implies #[trigger] self@[a].0
                        != #[trigger] self@[b].0 by {
                        assert(self@[a].0 == old(self)@[a].0);
                        assert(self@[b].0 == old(self)@[b].0);
                    }
                }
                return;
            }
            i = i + 1;
        }
        self.pairs.push((k, v));
        assert(self@ =~= old(self)@.push((key@, value@)));
    }
}

/// The keys and the values of a property map as two index-matched sequences
/// of null-terminated byte strings.
pub struct PropertyArrays {
    pub keys: Vec<Vec<u8>>,
    pub values: Vec<Vec<u8>>,
}

/// Whether no key or value of `pairs` holds a null byte.
pub open spec fn pairs_encodable(pairs: Seq<(Seq<char>, Seq<char>)>) -> bool {
    forall|i: int|
        0 <= i < pairs.len() ==> !has_nul(text_bytes((#[trigger] pairs[i]).0)) && !has_nul(
            text_bytes(pairs[i].1),
        )
}

impl PropertyArrays {
    /// `keys` and `values` are, index by index, the marshaled pairs of `pairs`.
    pub open spec fn marshals(&self, pairs: Seq<(Seq<char>, Seq<char>)>) -> bool {
        &&& self.keys@.len() == pairs.len()
        &&& self.values@.len() == pairs.len()
        &&& forall|i: int|
            0 <= i < pairs.len() ==> (#[trigger] self.keys@[i])@ == c_string(text_bytes(pairs[i].0))
        &&& forall|i: int|
            0 <= i < pairs.len() ==> (#[trigger] self.values@[i])@ == c_string(text_bytes(pairs[i].1))
    }
}

/// Marshaled arrays hold as many key buffers as value buffers, and as many
/// of each as the map has pairs.
pub proof fn lemma_arrays_match_pair_count(
    arrays: PropertyArrays,
    pairs: Seq<(Seq<char>, Seq<char>)>,
)
    requires
        arrays.marshals(pairs),
    ensures
        arrays.keys@.len() == arrays.values@.len(),
        arrays.values@.len() == pairs.len(),
{
}

/// Marshals a property map into two parallel arrays of byte strings, pair by
/// pair in the map's order. Fails with `Encoding` if any key or value holds a
/// null byte.
pub fn to_parallel_arrays(properties: &PropertyMap) -> (r: Result<PropertyArrays, HostError>)
    ensures
        match r {
            Ok(arrays) => pairs_encodable(properties@) && arrays.marshals(properties@),
            Err(e) => !pairs_encodable(properties@) && e == HostError::Encoding,
        },
{
    let mut keys: Vec<Vec<u8>> = Vec::new();
    let mut values: Vec<Vec<u8>> = Vec::new();
    let mut i: usize = 0;
    while i < properties.pairs.len()
        invariant
            i <= properties@.len(),
            keys@.len() == i,
            values@.len() == i,
            forall|j: int|
                0 <= j < i ==> !has_nul(text_bytes((#[trigger] properties@[j]).0)) && !has_nul(
                    text_bytes(properties@[j].1),
                ),
            forall|j: int|
                0 <= j < i ==> (#[trigger] keys@[j])@ == c_string(text_bytes(properties@[j].0)),
            forall|j: int|
                0 <= j < i ==> (#[trigger] values@[j])@ == c_string(text_bytes(properties@[j].1)),
        decreases properties.pairs.len() - i,
    {
        let ghost entry = properties@[i as int];
        assert(entry == (properties.pairs@[i as int].0@, properties.pairs@[i as int].1@));
        let ghost old_keys = keys@;
        let ghost old_values = values@;
        match to_byte_string(properties.pairs[i].0.as_str()) {
            Ok(k) => {
                match to_byte_string(properties.pairs[i].1.as_str()) {
                    Ok(v) => {
                        keys.push(k);
                        values.push(v);
                        assert forall|j: int| 0 <= j <= i implies (#[trigger] keys@[j])@ == c_string(
                            text_bytes(properties@[j].0),
                        ) by {
                            if j < i {
                                assert(keys@[j] == old_keys[j]);
                            }
                        }
                        assert forall|j: int| 0 <= j <= i implies (#[trigger] values@[j])@ == c_string(
                            text_bytes(properties@[j].1),
                        ) by {
                            if j < i {
                                assert(values@[j] == old_values[j]);
                            }
                        }
                    },
                    Err(e) => {
                        assert(has_nul(text_bytes(entry.1)));
                        assert(!pairs_encodable(properties@));
                        return Err(e);
                    },
                }
            },
            Err(e) => {
                assert(has_nul(text_bytes(entry.0)));
                assert(!pairs_encodable(properties@));
                return Err(e);
            },
        }
        i = i + 1;
    }
    let arrays = PropertyArrays { keys, values };
    Ok(arrays)
}

} // verus!
