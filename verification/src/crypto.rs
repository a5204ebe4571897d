//! Public keys and hashes.

use vstd::prelude::*;

verus! {

/// Number of bytes in a public key, and in a hash.
pub const KEY_LENGTH: usize = 32;

/// Public key by which a participant or a validator is known.
#[derive(Clone, Copy, Debug)]
pub struct PublicKey {
    /// Raw bytes of the key.
    pub bytes: [u8; 32],
}

/// SHA-256 hash.
#[derive(Clone, Copy, Debug)]
pub struct Hash {
    /// Raw bytes of the hash.
    pub bytes: [u8; 32],
}

/// Tells whether `a` comes before `b` when byte strings are read from left to
/// right: they agree on some bytes, and the next byte of `a` is smaller.
pub open spec fn key_lt(a: PublicKey, b: PublicKey) -> bool {
    exists|i: int| #[trigger] differ_first_at(a, b, i) && a.bytes@[i] < b.bytes@[i]
}

/// Tells whether `i` is the first byte in which two keys differ.
pub open spec fn differ_first_at(a: PublicKey, b: PublicKey, i: int) -> bool {
    &&& 0 <= i < KEY_LENGTH
    &&& a.bytes@[i] != b.bytes@[i]
    &&& forall|j: int| 0 <= j < i ==> a.bytes@[j] == b.bytes@[j]
}

/// Value of a hexadecimal digit, in either case.
pub open spec fn hex_digit(c: char) -> Option<int> {
    if '0' <= c <= '9' {
        Some(c as int - '0' as int)
    } else if 'a' <= c <= 'f' {
        Some(c as int - 'a' as int + 10)
    } else if 'A' <= c <= 'F' {
        Some(c as int - 'A' as int + 10)
    } else {
        None
    }
}

/// Bytes that a hexadecimal string of a key stands for, two digits to a byte, or
/// `None` if the string is no such thing.
pub open spec fn hex_bytes(text: Seq<char>) -> Option<Seq<u8>> {
    if text.len() == 2 * KEY_LENGTH && (forall|i: int|
        0 <= i < text.len() ==> hex_digit(#[trigger] text[i]) is Some) {
        Some(
            Seq::new(
                KEY_LENGTH as nat,
                |i: int|
                    (16 * hex_digit(text[2 * i])->0 + hex_digit(text[2 * i + 1])->0) as u8,
            ),
        )
    } else {
        None
    }
}

/// Key that a hexadecimal string stands for, or `None` if the string is no such thing.
pub open spec fn hex_key(text: Seq<char>) -> Option<PublicKey> {
    match hex_bytes(text) {
        Some(bytes) => Some(choose|key: PublicKey| key.bytes@ == bytes),
        None => None,
    }
}

/// The order of keys is a strict total order.
pub proof fn key_order_is_total(a: PublicKey, b: PublicKey, c: PublicKey)
    ensures
        !key_lt(a, a),
        a != b ==> key_lt(a, b) || key_lt(b, a),
        key_lt(a, b) && key_lt(b, c) ==> key_lt(a, c),
        key_lt(a, b) ==> !key_lt(b, a),
{
    if a != b {
        if forall|i: int| 0 <= i < KEY_LENGTH ==> a.bytes@[i] == b.bytes@[i] {
            assert(a.bytes =~= b.bytes);
        }
        let i = choose|i: int| 0 <= i < KEY_LENGTH && a.bytes@[i] != b.bytes@[i];
        first_difference(a, b, i);
    }
    if key_lt(a, b) && key_lt(b, c) {
        let i = choose|i: int|
            #[trigger] differ_first_at(a, b, i) && a.bytes@[i] < b.bytes@[i];
        let j = choose|j: int|
            #[trigger] differ_first_at(b, c, j) && b.bytes@[j] < c.bytes@[j];
        let k = if i <= j { i } else { j };
        assert(differ_first_at(a, c, k));
    }
    if key_lt(a, b) && key_lt(b, a) {
        let i = choose|i: int|
            #[trigger] differ_first_at(a, b, i) && a.bytes@[i] < b.bytes@[i];
        let j = choose|j: int|
            #[trigger] differ_first_at(b, a, j) && b.bytes@[j] < a.bytes@[j];
        assert(i == j);
    }
}

/// Keys that differ somewhere differ somewhere first.
proof fn first_difference(a: PublicKey, b: PublicKey, i: int)
    requires
        0 <= i < KEY_LENGTH,
        a.bytes@[i] != b.bytes@[i],
    ensures
        exists|j: int| #[trigger] differ_first_at(a, b, j) && differ_first_at(b, a, j),
    decreases i,
{
    if forall|j: int| 0 <= j < i ==> a.bytes@[j] == b.bytes@[j] {
        assert(differ_first_at(a, b, i));
        assert(differ_first_at(b, a, i));
    } else {
        let j = choose|j: int| 0 <= j < i && a.bytes@[j] != b.bytes@[j];
        first_difference(a, b, j);
    }
}

impl PartialEq for PublicKey {
    fn eq(&self, other: &Self) -> (same: bool) {
        let mut i: usize = 0;
        while i < KEY_LENGTH
            invariant
                i <= KEY_LENGTH,
                forall|j: int| 0 <= j < i ==> self.bytes@[j] == other.bytes@[j],
            decreases KEY_LENGTH - i,
        {
            if self.bytes[i] != other.bytes[i] {
                assert(self.bytes@[i as int] != other.bytes@[i as int]);
                return false;
            }
            i += 1;
        }
        assert(self.bytes =~= other.bytes);
        true
    }
}

impl vstd::std_specs::cmp::PartialEqSpecImpl for PublicKey {
    open spec fn obeys_eq_spec() -> bool {
        true
    }

    open spec fn eq_spec(&self, other: &Self) -> bool {
        *self == *other
    }
}

impl Eq for PublicKey {

}

impl PublicKey {
    /// Makes a key of its bytes.
    pub fn new(bytes: [u8; 32]) -> (key: Self)
        ensures
            key.bytes == bytes,
    {
        PublicKey { bytes }
    }

    /// Tells whether this key comes before the other one.
    pub fn precedes(&self, other: &PublicKey) -> (before: bool)
        ensures
            before == key_lt(*self, *other),
    {
        let mut i: usize = 0;
        while i < KEY_LENGTH
            invariant
                i <= KEY_LENGTH,
                forall|j: int| 0 <= j < i ==> self.bytes@[j] == other.bytes@[j],
            decreases KEY_LENGTH - i,
        {
            if self.bytes[i] != other.bytes[i] {
                assert(differ_first_at(*self, *other, i as int));
                return self.bytes[i] < other.bytes[i];
            }
            i += 1;
        }
        false
    }

    /// Reads a key from its hexadecimal form, in which the case of a letter does
    /// not matter.
    pub fn from_hex(text: &str) -> (key: Option<PublicKey>)
        ensures
            key == hex_key(text@),
            key is Some ==> Some(key->0.bytes@) == hex_bytes(text@),
    {
        if text.unicode_len() != 2 * KEY_LENGTH {
            return None;
        }
        let mut bytes: [u8; 32] = [0;32];
        let mut i: usize = 0;
        while i < KEY_LENGTH
            invariant
                i <= KEY_LENGTH,
                text@.len() == 2 * KEY_LENGTH,
                bytes@.len() == KEY_LENGTH,
                forall|j: int| 0 <= j < 2 * i ==> hex_digit(#[trigger] text@[j]) is Some,
                forall|j: int|
                    0 <= j < i ==> #[trigger] bytes@[j] == (16 * hex_digit(text@[2 * j])->0
                        + hex_digit(text@[2 * j + 1])->0) as u8,
            decreases KEY_LENGTH - i,
        {
            let high = hex_value(text.get_char(2 * i));
            let low = hex_value(text.get_char(2 * i + 1));
            match (high, low) {
                (Some(h), Some(l)) => {
                    bytes[i] = 16 * h + l;
                    i += 1;
                },
                _ => {
                    assert(hex_digit(text@[2 * i as int]) is None || hex_digit(
                        text@[2 * i as int + 1],
                    ) is None);
                    return None;
                },
            }
        }
        assert(hex_bytes(text@) is Some);
        assert(bytes@ =~= hex_bytes(text@)->0);
        let key = PublicKey { bytes };
        proof {
            let named = hex_key(text@)->0;
            assert(named.bytes@ == key.bytes@);
            assert(named.bytes =~= key.bytes);
        }
        Some(key)
    }
}

impl Hash {
    /// Makes a hash of its bytes.
    pub fn new(bytes: [u8; 32]) -> (hash: Self)
        ensures
            hash.bytes == bytes,
    {
        Hash { bytes }
    }
}

/// Value of a hexadecimal digit.
fn hex_value(c: char) -> (digit: Option<u8>)
    ensures
        match (digit, hex_digit(c)) {
            (Some(d), Some(v)) => d == v && d < 16,
            (None, None) => true,
            _ => false,
        },
{
    if '0' <= c && c <= '9' {
        Some((c as u32 - '0' as u32) as u8)
    } else if 'a' <= c && c <= 'f' {
        Some((c as u32 - 'a' as u32 + 10) as u8)
    } else if 'A' <= c && c <= 'F' {
        Some((c as u32 - 'A' as u32 + 10) as u8)
    } else {
        None
    }
}

/// There is a key with the given first bytes.
proof fn key_of(bytes: Seq<u8>, count: int) -> (key: PublicKey)
    requires
        0 <= count <= 32,
    ensures
        forall|i: int| 0 <= i < count ==> key.bytes@[i] == bytes[i],
    decreases count,
{
    if count == 0 {
        arbitrary()
    } else {
        let key = key_of(bytes, count - 1);
        PublicKey {
            bytes: vstd::array::spec_array_update(key.bytes, count - 1, bytes[count - 1]),
        }
    }
}

/// A text is read as a key just where it holds, for each byte of the key in order, the two
/// hexadecimal digits of the byte, the high one first, with letters in either case. So
/// reading a key undoes writing it, and no other text is read as that key.
pub proof fn reading_undoes_writing(key: PublicKey, text: Seq<char>)
    ensures
        hex_key(text) == Some(key) <==> {
            &&& text.len() == 64
            &&& forall|i: int| #![trigger key.bytes@[i]]
                0 <= i < 32 ==> {
                    let high = key.bytes@[i] as int / 16;
                    let low = key.bytes@[i] as int % 16;
                    let first = text[2 * i] as int;
                    let second = text[2 * i + 1] as int;
                    &&& high < 10 ==> first == 48 + high
                    &&& high >= 10 ==> first == 65 + (high - 10) || first == 97 + (high - 10)
                    &&& low < 10 ==> second == 48 + low
                    &&& low >= 10 ==> second == 65 + (low - 10) || second == 97 + (low - 10)
                }
        },
{
    let spells = |i: int|
        {
            let high = key.bytes@[i] as int / 16;
            let low = key.bytes@[i] as int % 16;
            let first = text[2 * i] as int;
            let second = text[2 * i + 1] as int;
            &&& high < 10 ==> first == 48 + high
            &&& high >= 10 ==> first == 65 + (high - 10) || first == 97 + (high - 10)
            &&& low < 10 ==> second == 48 + low
            &&& low >= 10 ==> second == 65 + (low - 10) || second == 97 + (low - 10)
        };
    if hex_key(text) == Some(key) {
        let bytes = hex_bytes(text)->0;
        let named = key_of(bytes, 32);
        assert(named.bytes@ =~= bytes);
        assert(key.bytes@ == bytes);
        assert forall|i: int| 0 <= i < 32 implies #[trigger] spells(i) by {
            assert(hex_digit(text[2 * i]) is Some);
            assert(hex_digit(text[2 * i + 1]) is Some);
            assert(key.bytes@[i] == bytes[i]);
        }
        assert forall|i: int| #![trigger key.bytes@[i]] 0 <= i < 32 implies spells(i) by {}
    }
    if text.len() == 64 && (forall|i: int| #![trigger key.bytes@[i]] 0 <= i < 32 ==> spells(i)) {
        assert forall|i: int| 0 <= i < 32 implies #[trigger] spells(i) by {
            let byte = key.bytes@[i];
        }
        assert forall|j: int| 0 <= j < 64 implies hex_digit(#[trigger] text[j]) is Some by {
            assert(spells(j / 2));
            assert(j == 2 * (j / 2) || j == 2 * (j / 2) + 1);
        }
        let bytes = hex_bytes(text)->0;
        assert forall|i: int| 0 <= i < 32 implies #[trigger] bytes[i] == key.bytes@[i] by {
            assert(spells(i));
        }
        assert(bytes =~= key.bytes@);
        let named = hex_key(text)->0;
        assert(named.bytes@ == bytes);
        assert(named.bytes =~= key.bytes);
    }
}

/// Keys are ordered by the first byte in which they differ.
pub proof fn first_different_byte_decides(a: PublicKey, b: PublicKey, i: int)
    requires
        0 <= i < 32,
        forall|j: int| 0 <= j < i ==> a.bytes@[j] == b.bytes@[j],
        a.bytes@[i] < b.bytes@[i],
    ensures
        key_lt(a, b),
        !key_lt(b, a),
{
    assert(differ_first_at(a, b, i));
    key_order_is_total(a, b, a);
}

} // verus!
