use vstd::prelude::*;

use crate::identity::{is_account_id, lemma_account_id_is_ascii, Identity};

verus! {

broadcast use vstd::string::group_string_axioms;

/// The bytes of an ASCII text, one per character.
pub open spec fn ascii_bytes(s: Seq<char>) -> Seq<u8> {
    Seq::new(s.len(), |i: int| s[i] as u8)
}

/// The key under which a key-value collection stored at `prefix` keeps the
/// entry of account `id`: the prefix followed by the bytes of the name, with no
/// length and no separator between them.
///
/// The prefix is a property of the contract's storage layout. A wrong prefix
/// still yields a key, one that the contract never reads.
pub open spec fn row_key(prefix: Seq<u8>, id: Seq<char>) -> Seq<u8> {
    prefix + ascii_bytes(id)
}

/// The `n` low-order bytes of `v`, least significant first.
pub open spec fn le_bytes(v: nat, n: nat) -> Seq<u8>
    decreases n,
{
    if n == 0 {
        Seq::empty()
    } else {
        seq![(v % 256) as u8] + le_bytes(v / 256, (n - 1) as nat)
    }
}

/// The stored form of a zero balance: sixteen zero bytes.
pub open spec fn zero_balance() -> Seq<u8> {
    Seq::new(16, |i: int| 0u8)
}

/// Builds the storage row key of `identity` in the collection at `prefix`.
pub fn storage_row_key(prefix: &[u8], identity: &Identity) -> (r: Vec<u8>)
    ensures
        r@ == row_key(prefix@, identity@),
{
    let name = identity.as_str();
    proof {
        lemma_account_id_is_ascii(name@);
        assert(vstd::string::is_ascii(name));
    }
    let bytes = name.as_bytes();
    assert(bytes@ =~= ascii_bytes(identity@));
    let mut r: Vec<u8> = Vec::new();
    let mut i: usize = 0;
    while i < prefix.len()
        invariant
            i <= prefix@.len(),
            r@ == prefix@.subrange(0, i as int),
        decreases prefix@.len() - i,
    {
        r.push(prefix[i]);
        i = i + 1;
        assert(r@ =~= prefix@.subrange(0, i as int));
    }
    assert(prefix@.subrange(0, i as int) =~= prefix@);
    let mut j: usize = 0;
    while j < bytes.len()
        invariant
            j <= bytes@.len(),
            r@ == prefix@ + bytes@.subrange(0, j as int),
        decreases bytes@.len() - j,
    {
        r.push(bytes[j]);
        j = j + 1;
        assert(r@ =~= prefix@ + bytes@.subrange(0, j as int));
    }
    assert(bytes@.subrange(0, j as int) =~= bytes@);
    r
}

/// Row keys identify accounts: for one prefix, two account names give the same
/// key exactly when they are the same name. Since `storage_row_key` returns
/// `row_key` of its arguments, encoding one pair twice gives equal bytes, and
/// two distinct accounts under one prefix never collide.
pub proof fn lemma_row_key_injective(prefix: Seq<u8>, a: Seq<char>, b: Seq<char>)
    requires
        is_account_id(a),
        is_account_id(b),
    ensures
        row_key(prefix, a) == row_key(prefix, b) <==> a == b,
{
    if row_key(prefix, a) == row_key(prefix, b) {
        lemma_account_id_is_ascii(a);
        lemma_account_id_is_ascii(b);
        let n = prefix.len() as int;
        assert(ascii_bytes(a) =~= row_key(prefix, a).subrange(n, row_key(prefix, a).len() as int));
        assert(ascii_bytes(b) =~= row_key(prefix, b).subrange(n, row_key(prefix, b).len() as int));
        assert(a.len() == b.len());
        assert forall|i: int| 0 <= i < a.len() implies a[i] == b[i] by {
            assert(ascii_bytes(a)[i] == ascii_bytes(b)[i]);
            assert('\0' <= a[i] <= '\u{7f}');
            assert('\0' <= b[i] <= '\u{7f}');
        }
        assert(a =~= b);
    }
}

proof fn lemma_le_bytes_of_zero(n: nat)
    ensures
        le_bytes(0, n) =~= Seq::new(n, |i: int| 0u8),
    decreases n,
{
    if n > 0 {
        lemma_le_bytes_of_zero((n - 1) as nat);
    }
}

/// Encodes a balance the way Borsh encodes a `u128`: its sixteen bytes in
/// little-endian order.
pub fn encode_balance(v: u128) -> (r: Vec<u8>)
    ensures
        r@ == le_bytes(v as nat, 16),
{
    let mut r: Vec<u8> = Vec::new();
    let mut rest: u128 = v;
    let mut k: usize = 0;
    while k < 16
        invariant
            k <= 16,
            r@ + le_bytes(rest as nat, (16 - k) as nat) == le_bytes(v as nat, 16),
        decreases 16 - k,
    {
        let b = (rest % 256) as u8;
        let ghost tail = le_bytes(rest as nat / 256, (16 - k - 1) as nat);
        assert(le_bytes(rest as nat, (16 - k) as nat) == seq![b] + tail);
        assert(r@.push(b) + tail =~= r@ + (seq![b] + tail));
        r.push(b);
        rest = rest / 256;
        k = k + 1;
    }
    assert(r@ + le_bytes(rest as nat, 0) =~= r@);
    r
}

/// The stored value of an account registered with a zero balance.
pub fn zero_balance_row() -> (r: Vec<u8>)
    ensures
        r@ == zero_balance(),
{
    let r = encode_balance(0);
    proof {
        lemma_le_bytes_of_zero(16);
    }
    r
}

} // verus!
