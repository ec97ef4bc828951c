use vstd::prelude::*;

verus! {

/// Length of a genome in bytes.
pub const DNA_LEN: usize = 16;

/// Whether bit `b` of `x` is set.
pub open spec fn bit_of(x: u8, b: u8) -> bool {
    (x >> b) & 1u8 == 1u8
}

/// One byte of a child: the bits of `a` where `mask` is set, else those of `b`.
pub open spec fn select_byte(mask: u8, a: u8, b: u8) -> u8 {
    (mask & a) | (!mask & b)
}

/// The child genome of `a` and `b` under the entropy `mask`.
pub open spec fn combined(mask: Seq<u8>, a: Seq<u8>, b: Seq<u8>) -> Seq<u8> {
    Seq::new(16, |i: int| select_byte(mask[i], a[i], b[i]))
}

/// Each bit of a selected byte comes from `a` where the mask bit is set, else from `b`.
pub proof fn lemma_select_byte_bits(mask: u8, a: u8, b: u8)
    ensures
        forall|k: u8|
            k < 8 ==> (#[trigger] bit_of(select_byte(mask, a, b), k) == if bit_of(mask, k) {
                bit_of(a, k)
            } else {
                bit_of(b, k)
            }),
{
    assert(forall|k: u8|
        k < 8 ==> (((mask & a) | (!mask & b)) >> k) & 1u8 == if (mask >> k) & 1u8 == 1u8 {
            (a >> k) & 1u8
        } else {
            (b >> k) & 1u8
        }) by (bit_vector);
}

/// Breeding law: for every byte position and every bit position, the child's bit
/// equals the first parent's bit where the entropy bit is set, and the second
/// parent's bit otherwise.
pub proof fn lemma_breeding_bit_law(mask: [u8; 16], a: [u8; 16], b: [u8; 16])
    ensures
        forall|i: int, k: u8|
            0 <= i < 16 && k < 8 ==> (#[trigger] bit_of(combined(mask@, a@, b@)[i], k) == if bit_of(
                mask@[i],
                k,
            ) {
                bit_of(a@[i], k)
            } else {
                bit_of(b@[i], k)
            }),
{
    assert forall|i: int, k: u8| 0 <= i < 16 && k < 8 implies (#[trigger] bit_of(
        combined(mask@, a@, b@)[i],
        k,
    ) == if bit_of(mask@[i], k) {
        bit_of(a@[i], k)
    } else {
        bit_of(b@[i], k)
    }) by {
        lemma_select_byte_bits(mask@[i], a@[i], b@[i]);
    }
}

/// Mixes two parent genomes: each bit is taken from `dna1` where the
/// corresponding bit of `base` is set, else from `dna2`.
pub fn combine_dna(base: &[u8; 16], dna1: &[u8; 16], dna2: &[u8; 16]) -> (r: [u8; 16])
    ensures
        r@ == combined(base@, dna1@, dna2@),
{
    let mut dna: [u8; 16] = [0u8; 16];
    let mut i: usize = 0;
    while i < DNA_LEN
        invariant
            i <= 16,
            dna@.len() == 16,
            forall|j: int| 0 <= j < i ==> dna@[j] == select_byte(base@[j], dna1@[j], dna2@[j]),
        decreases 16 - i,
    {
        dna[i] = (base[i] & dna1[i]) | (!base[i] & dna2[i]);
        i = i + 1;
    }
    assert(dna@ =~= combined(base@, dna1@, dna2@));
    dna
}

} // verus!
