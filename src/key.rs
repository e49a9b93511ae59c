//! Content keys: a deterministic name for the result of applying one
//! transform specification to one source image.
use sha1::{Digest, Sha1};
use vstd::prelude::*;

verus! {

/// The parameters of one requested transformation: the exact output size.
#[derive(Clone, Copy, Debug, PartialEq, Eq, Structural)]
pub struct TransformCfg {
    pub width: u32,
    pub height: u32,
}

/// The character for a digit value below sixteen (`0`-`9`, then `A`-`F`).
pub open spec fn digit_char(d: nat) -> char {
    if d < 10 {
        (('0' as u8) + d) as char
    } else {
        (('A' as u8) + (d - 10)) as char
    }
}

/// The decimal text of `n`, without sign or leading zeros.
pub open spec fn decimal(n: nat) -> Seq<char>
    decreases n,
{
    if n < 10 {
        seq![digit_char(n)]
    } else {
        decimal(n / 10).push(digit_char(n % 10))
    }
}

/// Two uppercase hexadecimal digits for each byte, high nibble first.
pub open spec fn upper_hex(bytes: Seq<u8>) -> Seq<char>
    decreases bytes.len(),
{
    if bytes.len() == 0 {
        Seq::empty()
    } else {
        let b = bytes.last();
        upper_hex(bytes.drop_last()).push(digit_char((b / 16) as nat)).push(
            digit_char((b % 16) as nat),
        )
    }
}

/// SHA-1 of the UTF-8 encoding of `text`.
pub uninterp spec fn sha1_of(text: Seq<char>) -> Seq<u8>;

impl TransformCfg {
    /// The digest text of a specification: the height, then the width, in
    /// decimal and with no separator.
    pub open spec fn digest_text(self) -> Seq<char> {
        decimal(self.height as nat) + decimal(self.width as nat)
    }

    pub fn new(w: u32, h: u32) -> (r: Self)
        ensures
            r.width == w,
            r.height == h,
    {
        TransformCfg { width: w, height: h }
    }

    pub fn digest(self) -> (r: String)
        ensures
            r@ == self.digest_text(),
    {
        let mut r = decimal_string(self.height);
        let w = decimal_string(self.width);
        r.append(w.as_str());
        r
    }
}

/// The content key of a source id and a specification.
pub open spec fn content_key(source: Seq<char>, cfg: TransformCfg) -> Seq<char> {
    upper_hex(sha1_of(source + cfg.digest_text()))
}

/// One digit as a one-character string.
fn digit_str(d: u32) -> (r: &'static str)
    requires
        d < 16,
    ensures
        r@ == seq![digit_char(d as nat)],
{
    proof {
        reveal_strlit("0");
        reveal_strlit("1");
        reveal_strlit("2");
        reveal_strlit("3");
        reveal_strlit("4");
        reveal_strlit("5");
        reveal_strlit("6");
        reveal_strlit("7");
        reveal_strlit("8");
        reveal_strlit("9");
        reveal_strlit("A");
        reveal_strlit("B");
        reveal_strlit("C");
        reveal_strlit("D");
        reveal_strlit("E");
        reveal_strlit("F");
    }
    let r = match d {
        0 => "0",
        1 => "1",
        2 => "2",
        3 => "3",
        4 => "4",
        5 => "5",
        6 => "6",
        7 => "7",
        8 => "8",
        9 => "9",
        10 => "A",
        11 => "B",
        12 => "C",
        13 => "D",
        14 => "E",
        _ => "F",
    };
    assert(r@ =~= seq![digit_char(d as nat)]);
    r
}

/// The decimal text of `n`.
pub fn decimal_string(n: u32) -> (r: String)
    ensures
        r@ == decimal(n as nat),
    decreases n,
{
    if n < 10 {
        String::from_str(digit_str(n))
    } else {
        let mut r = decimal_string(n / 10);
        r.append(digit_str(n % 10));
        r
    }
}

/// Uppercase hexadecimal text of `bytes`.
pub fn hex_upper(bytes: &[u8]) -> (r: String)
    ensures
        r@ == upper_hex(bytes@),
{
    let mut r = String::new();
    let mut i: usize = 0;
    while i < bytes.len()
        invariant
            i <= bytes@.len(),
            r@ == upper_hex(bytes@.take(i as int)),
        decreases bytes.len() - i,
    {
        let b = bytes[i];
        r.append(digit_str((b / 16) as u32));
        r.append(digit_str((b % 16) as u32));
        proof {
            let t = bytes@.take(i as int + 1);
            assert(t.drop_last() =~= bytes@.take(i as int));
            assert(t.last() == b);
        }
        i = i + 1;
    }
    assert(bytes@.take(i as int) =~= bytes@);
    r
}

/// Relies on `sha1::Sha1` through `Digest::new`, `Digest::update` and
/// `Digest::finalize`: the 20-byte SHA-1 digest of the UTF-8 bytes fed in,
/// where feeding `head` then `tail` hashes their concatenation.
#[verifier::external_body]
fn sha1_digest(head: &str, tail: &str) -> (r: Vec<u8>)
    ensures
        r@ == sha1_of(head@ + tail@),
        r@.len() == 20,
{
    let mut hash = Sha1::new();
    hash.update(head);
    hash.update(tail);
    hash.finalize().to_vec()
}

/// The content key of `name` and `cfg`: SHA-1 over the name followed by the
/// specification's digest text, in uppercase hexadecimal.
pub fn get_sha1(name: &str, cfg: &TransformCfg) -> (r: String)
    ensures
        r@ == content_key(name@, *cfg),
        r@.len() == 40,
{
    let d = cfg.digest();
    let h = sha1_digest(name, d.as_str());
    let r = hex_upper(h.as_slice());
    proof {
        lemma_upper_hex_len(h@);
    }
    r
}

/// Hexadecimal text is twice as long as the bytes it renders.
pub proof fn lemma_upper_hex_len(bytes: Seq<u8>)
    ensures
        upper_hex(bytes).len() == 2 * bytes.len(),
    decreases bytes.len(),
{
    if bytes.len() > 0 {
        lemma_upper_hex_len(bytes.drop_last());
    }
}

/// A content key depends on the source id and the specification alone:
/// equal inputs give equal keys, in any process and at any time.
pub proof fn lemma_key_deterministic(s1: Seq<char>, s2: Seq<char>, c1: TransformCfg, c2: TransformCfg)
    requires
        s1 == s2,
        c1 == c2,
    ensures
        content_key(s1, c1) == content_key(s2, c2),
{
}

/// Digits map to distinct characters.
proof fn lemma_digit_char_injective(a: nat, b: nat)
    requires
        a < 10,
        b < 10,
        digit_char(a) == digit_char(b),
    ensures
        a == b,
{
}

/// Numbers from ten up have at least two decimal digits.
proof fn lemma_decimal_len(n: nat)
    ensures
        decimal(n).len() >= 1,
        n >= 10 ==> decimal(n).len() >= 2,
    decreases n,
{
    if n >= 10 {
        lemma_decimal_len(n / 10);
    }
}

/// Decimal text is injective.
pub proof fn lemma_decimal_injective(a: nat, b: nat)
    requires
        decimal(a) == decimal(b),
    ensures
        a == b,
    decreases a,
{
    lemma_decimal_len(a);
    lemma_decimal_len(b);
    if a < 10 {
        assert(decimal(a) == seq![digit_char(a)]);
        assert(b < 10);
        assert(decimal(b) == seq![digit_char(b)]);
        assert(seq![digit_char(a)][0] == digit_char(a));
        assert(seq![digit_char(b)][0] == digit_char(b));
        lemma_digit_char_injective(a, b);
    } else {
        let da = decimal(a);
        let db = decimal(b);
        assert(da.last() == db.last());
        lemma_digit_char_injective(a % 10, b % 10);
        assert(da.drop_last() =~= decimal(a / 10));
        assert(db.drop_last() =~= decimal(b / 10));
        lemma_decimal_injective(a / 10, b / 10);
    }
}

/// Specifications whose heights have the same number of decimal digits have
/// distinct digest texts unless they are equal; the digest text is all that
/// the key sees of a specification. (Distinct digest texts give distinct
/// keys only as far as SHA-1 has no collisions.)
pub proof fn lemma_digest_injective(a: TransformCfg, b: TransformCfg)
    requires
        a.digest_text() == b.digest_text(),
        decimal(a.height as nat).len() == decimal(b.height as nat).len(),
    ensures
        a == b,
{
    let n = decimal(a.height as nat).len() as int;
    assert(a.digest_text().take(n) =~= decimal(a.height as nat));
    assert(b.digest_text().take(n) =~= decimal(b.height as nat));
    assert(a.digest_text().skip(n) =~= decimal(a.width as nat));
    assert(b.digest_text().skip(n) =~= decimal(b.width as nat));
    lemma_decimal_injective(a.height as nat, b.height as nat);
    lemma_decimal_injective(a.width as nat, b.width as nat);
}

/// The boundary where unseparated decimal text collides: height 12 and
/// width 3 give the same key as height 1 and width 23, for every source.
pub proof fn lemma_digest_collision(source: Seq<char>)
    ensures
        content_key(source, TransformCfg { width: 3, height: 12 }) == content_key(
            source,
            TransformCfg { width: 23, height: 1 },
        ),
{
    let a = TransformCfg { width: 3, height: 12 };
    let b = TransformCfg { width: 23, height: 1 };
    assert(decimal(12) == decimal(1).push(digit_char(2)));
    assert(decimal(23) == decimal(2).push(digit_char(3)));
    assert(a.digest_text() =~= b.digest_text());
}

} // verus!
