//! Little-endian positional notation: the number that a sequence of words or bytes stands for.
use vstd::arithmetic::power::pow;
use vstd::prelude::*;

verus! {

/// The number whose base 2^32 digits are `digits`, least significant digit first.
pub open spec fn digits_value(digits: Seq<u32>) -> nat
    decreases digits.len(),
{
    if digits.len() == 0 {
        0
    } else {
        digits[0] as nat + 0x1_0000_0000 * digits_value(digits.drop_first())
    }
}

/// The number whose base 256 digits are `bytes`, least significant byte first.
pub open spec fn bytes_value(bytes: Seq<u8>) -> nat
    decreases bytes.len(),
{
    if bytes.len() == 0 {
        0
    } else {
        bytes[0] as nat + 256 * bytes_value(bytes.drop_first())
    }
}

/// Whether `digits` has no leading zero digit, so that zero is the empty sequence.
pub open spec fn canonical(digits: Seq<u32>) -> bool {
    digits.len() == 0 || digits.last() != 0
}

/// Byte `k` of `word`, where byte 0 is the least significant one.
pub open spec fn word_byte(word: u32, k: int) -> u8 {
    if k == 0 {
        (word % 256) as u8
    } else if k == 1 {
        (word / 256 % 256) as u8
    } else if k == 2 {
        (word / 65536 % 256) as u8
    } else {
        (word / 16777216 % 256) as u8
    }
}

/// The bytes of `words` one word after the other, each word least significant byte first.
pub open spec fn words_bytes(words: Seq<u32>) -> Seq<u8> {
    Seq::new(4 * words.len(), |j: int| word_byte(words[j / 4], j % 4))
}

/// Lays words out as bytes, least significant byte of each word first.
pub fn words_to_bytes_le(words: &[u32]) -> (bytes: Vec<u8>)
    requires
        4 * words@.len() <= usize::MAX,
    ensures
        bytes@ == words_bytes(words@),
        bytes_value(bytes@) == digits_value(words@),
{
    let mut bytes: Vec<u8> = Vec::new();
    let n: usize = words.len();
    let mut i: usize = 0;
    while i < n
        invariant
            i <= n,
            n == words@.len(),
            bytes@ == words_bytes(words@.take(i as int)),
        decreases n - i,
    {
        let word: u32 = words[i];
        bytes.push((word % 256) as u8);
        bytes.push((word / 256 % 256) as u8);
        bytes.push((word / 65536 % 256) as u8);
        bytes.push((word / 16777216 % 256) as u8);
        i = i + 1;
    }
    proof {
        assert(words@.take(n as int) =~= words@);
        lemma_words_bytes_value(words@);
    }
    bytes
}

/// Laying words out as bytes keeps the number that they stand for.
pub proof fn lemma_words_bytes_value(words: Seq<u32>)
    ensures
        bytes_value(words_bytes(words)) == digits_value(words),
    decreases words.len(),
{
    let bytes = words_bytes(words);
    if words.len() > 0 {
        let rest = words.drop_first();
        lemma_words_bytes_value(rest);
        let b1 = bytes.drop_first();
        let b2 = b1.drop_first();
        let b3 = b2.drop_first();
        let b4 = b3.drop_first();
        assert(b4 =~= words_bytes(rest));
        assert(bytes_value(b3) == b3[0] + 256 * bytes_value(b4));
        assert(bytes_value(b2) == b2[0] + 256 * bytes_value(b3));
        assert(bytes_value(b1) == b1[0] + 256 * bytes_value(b2));
        assert(bytes_value(bytes) == bytes[0] + 256 * bytes_value(b1));
    }
}

/// Sequences of as many digits that stand for the same number are the same sequence.
pub proof fn lemma_digits_injective(a: Seq<u32>, b: Seq<u32>)
    requires
        a.len() == b.len(),
        digits_value(a) == digits_value(b),
    ensures
        a == b,
    decreases a.len(),
{
    if a.len() > 0 {
        lemma_digits_injective(a.drop_first(), b.drop_first());
        assert(a =~= seq![a[0]] + a.drop_first());
        assert(b =~= seq![b[0]] + b.drop_first());
    } else {
        assert(a =~= b);
    }
}

/// A canonical sequence of digits stands for zero only when it is empty.
pub proof fn lemma_canonical_zero(digits: Seq<u32>)
    requires
        canonical(digits),
        digits_value(digits) == 0,
    ensures
        digits.len() == 0,
    decreases digits.len(),
{
    if digits.len() > 1 {
        assert(digits.drop_first().last() == digits.last());
        lemma_canonical_zero(digits.drop_first());
    } else if digits.len() == 1 {
        assert(digits.last() == digits[0]);
    }
}

/// A number has one canonical sequence of digits: two canonical sequences that stand for the same
/// number are the same sequence.
pub proof fn lemma_canonical_unique(a: Seq<u32>, b: Seq<u32>)
    requires
        canonical(a),
        canonical(b),
        digits_value(a) == digits_value(b),
    ensures
        a == b,
    decreases a.len(),
{
    if a.len() == 0 {
        lemma_canonical_zero(b);
        assert(a =~= b);
    } else if b.len() == 0 {
        lemma_canonical_zero(a);
    } else {
        let ra = a.drop_first();
        let rb = b.drop_first();
        assert(ra.len() > 0 ==> ra.last() == a.last());
        assert(rb.len() > 0 ==> rb.last() == b.last());
        lemma_canonical_unique(ra, rb);
        assert(a =~= seq![a[0]] + ra);
        assert(b =~= seq![b[0]] + rb);
    }
}

/// No digits stand for zero, and a digit `d` after `n` others adds `d` times the base to the power
/// of `n`: digits are least significant first, whatever their number.
pub proof fn law_digits_value(digits: Seq<u32>, d: u32)
    ensures
        digits_value(Seq::empty()) == 0,
        digits_value(digits.push(d)) == digits_value(digits) + d * pow(
            0x1_0000_0000,
            digits.len(),
        ),
    decreases digits.len(),
{
    reveal(pow);
    let more = digits.push(d);
    if digits.len() == 0 {
        assert(more.drop_first() =~= Seq::<u32>::empty());
        assert(digits_value(more.drop_first()) == 0);
        vstd::arithmetic::power::lemma_pow0(0x1_0000_0000);
        assert(d * 1 == d);
    } else {
        let rest = digits.drop_first();
        law_digits_value(rest, d);
        assert(more.drop_first() =~= rest.push(d));
        let p = pow(0x1_0000_0000, rest.len());
        assert(pow(0x1_0000_0000, digits.len()) == 0x1_0000_0000 * p);
        assert(d * (0x1_0000_0000 * p) == 0x1_0000_0000 * (d * p)) by (nonlinear_arith);
    }
}

/// No bytes stand for zero, and a byte `d` after `n` others adds `d` times 256 to the power of `n`.
pub proof fn law_bytes_value(bytes: Seq<u8>, d: u8)
    ensures
        bytes_value(Seq::empty()) == 0,
        bytes_value(bytes.push(d)) == bytes_value(bytes) + d * pow(256, bytes.len()),
    decreases bytes.len(),
{
    reveal(pow);
    let more = bytes.push(d);
    if bytes.len() == 0 {
        assert(more.drop_first() =~= Seq::<u8>::empty());
        assert(bytes_value(more.drop_first()) == 0);
        vstd::arithmetic::power::lemma_pow0(256);
        assert(d * 1 == d);
    } else {
        let rest = bytes.drop_first();
        law_bytes_value(rest, d);
        assert(more.drop_first() =~= rest.push(d));
        let p = pow(256, rest.len());
        assert(pow(256, bytes.len()) == 256 * p);
        assert(d * (256 * p) == 256 * (d * p)) by (nonlinear_arith);
    }
}

/// The bytes of `words` are four for each word, in the order of the words, and those of one word
/// stand for it with the least significant one first.
pub proof fn law_words_bytes(words: Seq<u32>, i: int)
    requires
        0 <= i < words.len(),
    ensures
        words_bytes(words).len() == 4 * words.len(),
        words[i] == words_bytes(words)[4 * i] + 256 * words_bytes(words)[4 * i + 1] + 65536
            * words_bytes(words)[4 * i + 2] + 16777216 * words_bytes(words)[4 * i + 3],
{
}

/// Digits are canonical where there are none or the last, most significant one is not zero.
pub proof fn law_canonical(digits: Seq<u32>)
    ensures
        canonical(digits) <==> (digits.len() > 0 ==> digits[digits.len() - 1] != 0),
{
}

} // verus!
