use vstd::prelude::*;

verus! {

/// The 16-byte BLAKE2b digest of `data`.
pub uninterp spec fn blake2_128_of(data: Seq<u8>) -> Seq<u8>;

/// The `n` low-order bytes of `x`, least significant first.
pub open spec fn le_bytes(x: nat, n: nat) -> Seq<u8>
    decreases n,
{
    if n == 0 {
        Seq::empty()
    } else {
        seq![(x % 256) as u8] + le_bytes(x / 256, (n - 1) as nat)
    }
}

/// The encoding of an optional 32-bit index: a tag byte, then the value in little-endian order.
pub open spec fn option_u32_bytes(v: Option<u32>) -> Seq<u8> {
    match v {
        None => seq![0u8],
        Some(x) => seq![1u8] + le_bytes(x as nat, 4),
    }
}

/// The bytes hashed to seed a genome: the random seed, the account, and the
/// index of the extrinsic in its block.
pub open spec fn seed_input(seed: Seq<u8>, sender: u64, index: Option<u32>) -> Seq<u8> {
    seed + le_bytes(sender as nat, 8) + option_u32_bytes(index)
}

/// Relies on sp_crypto_hashing::blake2_128: the BLAKE2b-128 digest of `data`,
/// which depends on `data` alone.
#[verifier::external_body]
fn blake2_128(data: &Vec<u8>) -> (r: [u8; 16])
    ensures
        r@ == blake2_128_of(data@),
{
    sp_crypto_hashing::blake2_128(data.as_slice())
}

/// Appends the `n` low-order bytes of `x` to `out`, least significant first.
pub fn push_le(out: &mut Vec<u8>, x: u64, n: usize)
    requires
        n <= 8,
    ensures
        final(out)@ == old(out)@ + le_bytes(x as nat, n as nat),
{
    let mut v: u64 = x;
    let mut i: usize = 0;
    while i < n
        invariant
            i <= n,
            out@ + le_bytes(v as nat, (n - i) as nat) == old(out)@ + le_bytes(x as nat, n as nat),
        decreases n - i,
    {
        let ghost before = out@;
        assert(le_bytes(v as nat, (n - i) as nat) == seq![(v % 256) as u8] + le_bytes(
            (v / 256) as nat,
            (n - i - 1) as nat,
        ));
        out.push((v % 256) as u8);
        assert(out@ + le_bytes((v / 256) as nat, (n - i - 1) as nat) =~= before + le_bytes(
            v as nat,
            (n - i) as nat,
        ));
        v = v / 256;
        i = i + 1;
    }
    assert(le_bytes(v as nat, 0) =~= Seq::<u8>::empty());
    assert(out@ + Seq::<u8>::empty() =~= out@);
}

/// Lays out the seed material of a genome as bytes.
pub fn encode_seed_input(seed: &[u8; 32], sender: u64, index: Option<u32>) -> (r: Vec<u8>)
    ensures
        r@ == seed_input(seed@, sender, index),
{
    let mut out: Vec<u8> = Vec::new();
    let mut i: usize = 0;
    while i < 32
        invariant
            i <= 32,
            out@ == seed@.subrange(0, i as int),
        decreases 32 - i,
    {
        out.push(seed[i]);
        assert(out@ =~= seed@.subrange(0, i + 1));
        i = i + 1;
    }
    assert(out@ =~= seed@);
    push_le(&mut out, sender, 8);
    match index {
        None => {
            out.push(0u8);
            assert(out@ =~= seed_input(seed@, sender, index));
        },
        Some(x) => {
            out.push(1u8);
            push_le(&mut out, x as u64, 4);
            assert(out@ =~= seed_input(seed@, sender, index));
        },
    }
    out
}

/// A fresh genome for `sender`: the digest of the random seed, the account and
/// the extrinsic index.
pub fn random_hash(seed: &[u8; 32], sender: u64, index: Option<u32>) -> (r: [u8; 16])
    ensures
        r@ == blake2_128_of(seed_input(seed@, sender, index)),
{
    let data = encode_seed_input(seed, sender, index);
    blake2_128(&data)
}

} // verus!
