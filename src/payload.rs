use vstd::prelude::*;
use crate::types::{AccountId, Balance};

verus! {

/// Bytes in the amount field.
pub const AMOUNT_LEN: usize = 16;

/// Bytes in the recipient field of an inbound proposal.
pub const ACCOUNT_LEN: usize = 8;

/// `256` to the power `n`.
pub open spec fn pow256(n: nat) -> nat
    decreases n,
{
    if n == 0 {
        1
    } else {
        256 * pow256((n - 1) as nat)
    }
}

/// The number that `s` writes in big-endian order.
pub open spec fn be_value(s: Seq<u8>) -> nat
    decreases s.len(),
{
    if s.len() == 0 {
        0
    } else {
        be_value(s.drop_last()) * 256 + s.last() as nat
    }
}

/// What a proposal's data says, where it is well formed: an amount in its
/// first sixteen bytes and a recipient account in the next eight.
pub open spec fn proposal_payload(data: Seq<u8>) -> Option<(nat, nat)> {
    if data.len() == AMOUNT_LEN + ACCOUNT_LEN {
        Some((be_value(data.subrange(0, AMOUNT_LEN as int)), be_value(data.subrange(AMOUNT_LEN as int, data.len() as int))))
    } else {
        None
    }
}

proof fn lemma_pow256_grows(a: nat, b: nat)
    requires
        a <= b,
    ensures
        1 <= pow256(a) <= pow256(b),
    decreases b,
{
    if b > a {
        lemma_pow256_grows(a, (b - 1) as nat);
    } else if a > 0 {
        lemma_pow256_grows((a - 1) as nat, (a - 1) as nat);
    }
}

proof fn lemma_pow256_values()
    ensures
        pow256(8) == 0x1_0000_0000_0000_0000,
        pow256(16) == 0x1_0000_0000_0000_0000_0000_0000_0000_0000,
{
    reveal_with_fuel(pow256, 17);
}

/// A number written with `n` bytes is below `256^n`.
proof fn lemma_be_value_bound(s: Seq<u8>)
    ensures
        be_value(s) < pow256(s.len()),
    decreases s.len(),
{
    if s.len() > 0 {
        lemma_be_value_bound(s.drop_last());
        let p = pow256((s.len() - 1) as nat);
        let v = be_value(s.drop_last());
        assert(v * 256 + s.last() < p * 256) by (nonlinear_arith)
            requires
                v < p,
                s.last() < 256,
        ;
    }
}

/// Putting a byte in front adds it at the highest place.
proof fn lemma_be_value_prepend(b: u8, s: Seq<u8>)
    ensures
        be_value(seq![b] + s) == b as nat * pow256(s.len()) + be_value(s),
    decreases s.len(),
{
    let t = seq![b] + s;
    if s.len() > 0 {
        assert(t.drop_last() =~= seq![b] + s.drop_last());
        assert(t.last() == s.last());
        lemma_be_value_prepend(b, s.drop_last());
        let p = pow256((s.len() - 1) as nat);
        let v = be_value(s.drop_last());
        assert(pow256(s.len()) == 256 * p);
        assert(be_value(s) == v * 256 + s.last() as nat);
        assert(be_value(t) == be_value(t.drop_last()) * 256 + s.last() as nat);
        assert((b as nat * p + v) * 256 == b as nat * (256 * p) + v * 256) by (nonlinear_arith);
    } else {
        assert(t.drop_last() =~= Seq::<u8>::empty());
        assert(t.last() == b);
        assert(pow256(0) == 1);
        assert(b as nat * pow256(0) == b as nat) by (nonlinear_arith)
            requires
                pow256(0) == 1,
        ;
        assert(be_value(t) == be_value(t.drop_last()) * 256 + b as nat);
    }
}

/// Reads `len` bytes of `data` from `start` as a big-endian number.
fn read_be(data: &Vec<u8>, start: usize, len: usize) -> (r: u128)
    requires
        len <= AMOUNT_LEN,
        start + len <= data@.len(),
    ensures
        r as nat == be_value(data@.subrange(start as int, start + len)),
{
    proof {
        lemma_pow256_values();
    }
    let n: usize = data.len();
    let mut acc: u128 = 0;
    let mut i: usize = 0;
    while i < len
        invariant
            n == data@.len(),
            i <= len <= AMOUNT_LEN,
            start + len <= data@.len(),
            acc as nat == be_value(data@.subrange(start as int, start + i)),
            pow256(16) == 0x1_0000_0000_0000_0000_0000_0000_0000_0000,
        decreases len - i,
    {
        assert(start + i < data@.len());
        let byte = data[start + i];
        let ghost s = data@.subrange(start as int, start + i + 1);
        proof {
            assert(s.drop_last() =~= data@.subrange(start as int, start + i));
            assert(s.last() == data@[start + i]);
            lemma_be_value_bound(s);
            lemma_pow256_grows((i + 1) as nat, 16);
            assert(s.len() == i + 1);
            assert(be_value(s) == acc as nat * 256 + data@[start + i] as nat);
            assert(acc as nat * 256 + data@[start + i] as nat <= u128::MAX);
        }
        acc = acc * 256 + byte as u128;
        i = i + 1;
    }
    acc
}

/// Reads a proposal's data as an amount and a recipient account.
pub fn decode_proposal_payload(data: &Vec<u8>) -> (r: Option<(Balance, AccountId)>)
    ensures
        match r {
            Some((amount, who)) => proposal_payload(data@) == Some((amount as nat, who as nat)),
            None => proposal_payload(data@) is None,
        },
{
    if data.len() != AMOUNT_LEN + ACCOUNT_LEN {
        return None;
    }
    let amount = read_be(data, 0, AMOUNT_LEN);
    let who = read_be(data, AMOUNT_LEN, ACCOUNT_LEN);
    proof {
        lemma_be_value_bound(data@.subrange(AMOUNT_LEN as int, data@.len() as int));
        lemma_pow256_values();
    }
    Some((amount, who as AccountId))
}

/// Writes `amount` as sixteen big-endian bytes.
pub fn encode_amount(amount: Balance) -> (r: Vec<u8>)
    ensures
        r@.len() == AMOUNT_LEN,
        be_value(r@) == amount as nat,
{
    let mut r: Vec<u8> = Vec::new();
    let mut k: usize = 0;
    while k < AMOUNT_LEN
        invariant
            k <= AMOUNT_LEN,
            r@.len() == k,
        decreases AMOUNT_LEN - k,
    {
        r.push(0);
        k = k + 1;
    }
    let mut x: u128 = amount;
    let mut i: usize = 0;
    assert(r@.subrange(AMOUNT_LEN as int, AMOUNT_LEN as int) =~= Seq::<u8>::empty());
    assert(pow256(0) == 1);
    while i < AMOUNT_LEN
        invariant
            i <= AMOUNT_LEN,
            r@.len() == AMOUNT_LEN,
            amount as nat == x as nat * pow256(i as nat) + be_value(r@.subrange(AMOUNT_LEN - i, AMOUNT_LEN as int)),
        decreases AMOUNT_LEN - i,
    {
        let b = (x % 256) as u8;
        let ghost old_suffix = r@.subrange(AMOUNT_LEN - i, AMOUNT_LEN as int);
        r.set(AMOUNT_LEN - 1 - i, b);
        proof {
            assert(r@.subrange(AMOUNT_LEN - i, AMOUNT_LEN as int) =~= old_suffix);
            assert(r@.subrange(AMOUNT_LEN - 1 - i, AMOUNT_LEN as int) =~= seq![b] + old_suffix);
            lemma_be_value_prepend(b, old_suffix);
            let p = pow256(i as nat);
            assert(x as nat * p == (x as nat / 256) * (256 * p) + (x as nat % 256) * p) by (nonlinear_arith);
        }
        x = x / 256;
        i = i + 1;
    }
    proof {
        assert(r@.subrange(0, AMOUNT_LEN as int) =~= r@);
        lemma_pow256_values();
        assert(x == 0) by (nonlinear_arith)
            requires
                amount as nat == x as nat * pow256(16) + be_value(r@),
                pow256(16) == 0x1_0000_0000_0000_0000_0000_0000_0000_0000,
                amount <= u128::MAX,
        ;
    }
    r
}

} // verus!
