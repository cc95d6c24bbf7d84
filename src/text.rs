//! Number formatting and argument splitting for command lines handed to
//! external programs and for the response header.
use vstd::prelude::*;

verus! {

/// Digits of the lower-case alphabet, by value.
pub const LOWER_DIGITS: &'static str = "0123456789abcdef";

/// Digits of the upper-case alphabet, by value.
pub const UPPER_DIGITS: &'static str = "0123456789ABCDEF";

/// The character for digit value `d` (below 16).
pub open spec fn digit_char(d: int, upper: bool) -> char {
    if upper {
        UPPER_DIGITS@[d]
    } else {
        LOWER_DIGITS@[d]
    }
}

/// The base of the digits: sixteen or ten.
pub open spec fn radix(hex: bool) -> nat {
    if hex {
        16
    } else {
        10
    }
}

/// `n` written in hexadecimal (`hex`) or decimal without leading zeros; zero
/// is `"0"`.
pub open spec fn digits(n: nat, hex: bool, upper: bool) -> Seq<char>
    decreases n,
{
    if n < radix(hex) {
        seq![digit_char(n as int, upper)]
    } else {
        digits(n / radix(hex), hex, upper) + seq![digit_char((n % radix(hex)) as int, upper)]
    }
}

/// `s` preceded by as many `'0'` as make it `width` long.
pub open spec fn zero_padded(s: Seq<char>, width: nat) -> Seq<char> {
    if s.len() >= width {
        s
    } else {
        Seq::new((width - s.len()) as nat, |i: int| '0') + s
    }
}

/// The one-character string for digit value `d`.
fn digit_text(d: u64, upper: bool) -> (r: &'static str)
    requires
        d < 16,
    ensures
        r@ == seq![digit_char(d as int, upper)],
{
    proof {
        reveal_strlit("0123456789abcdef");
        reveal_strlit("0123456789ABCDEF");
    }
    let alphabet = if upper {
        UPPER_DIGITS
    } else {
        LOWER_DIGITS
    };
    let r = alphabet.substring_char(d as usize, d as usize + 1);
    assert(r@ =~= seq![digit_char(d as int, upper)]);
    r
}

/// `n` in hexadecimal (`hex`) or decimal, without leading zeros.
pub fn digits_text(n: u64, hex: bool, upper: bool) -> (r: String)
    ensures
        r@ == digits(n as nat, hex, upper),
{
    let base: u64 = if hex {
        16
    } else {
        10
    };
    let mut rest: u64 = n;
    let mut out = String::new();
    while rest >= base
        invariant
            base == radix(hex),
            digits(n as nat, hex, upper) == digits(rest as nat, hex, upper)
                + out@,
        decreases rest,
    {
        let d = digit_text(rest % base, upper);
        let ghost old_out = out@;
        out = String::from_str(d).concat(out.as_str());
        proof {
            let q = (rest / base) as nat;
            assert(digits(rest as nat, hex, upper) == digits(q, hex, upper)
                + seq![digit_char((rest % base) as int, upper)]);
            assert(digits(n as nat, hex, upper) =~= digits(q, hex, upper)
                + out@);
        }
        rest = rest / base;
    }
    let d = digit_text(rest, upper);
    let r = String::from_str(d).concat(out.as_str());
    assert(r@ =~= digits(n as nat, hex, upper));
    r
}

/// `s` with `'0'` put in front of it until it is `width` characters long.
pub fn pad_zeros(s: String, width: usize) -> (r: String)
    ensures
        r@ == zero_padded(s@, width as nat),
{
    let ghost orig = s@;
    let mut out = s;
    let mut len = out.as_str().unicode_len();
    if len >= width {
        return out;
    }
    while len < width
        invariant
            orig.len() < width,
            orig.len() <= len <= width,
            len == out@.len(),
            out@ =~= Seq::new((len - orig.len()) as nat, |i: int| '0') + orig,
        decreases width - len,
    {
        proof {
            reveal_strlit("0");
        }
        out = String::from_str("0").concat(out.as_str());
        len = len + 1;
        assert(out@ =~= Seq::new((len - orig.len()) as nat, |i: int| '0') + orig);
    }
    out
}

/// `s` cut at every space: `n` spaces give `n + 1` pieces, empty ones
/// included, as `str::split(" ")` gives them.
pub open spec fn split_on_space(s: Seq<char>) -> Seq<Seq<char>>
    decreases s.len(),
{
    if s.len() == 0 {
        seq![Seq::empty()]
    } else {
        let front = split_on_space(s.drop_last());
        if s.last() == ' ' {
            front.push(Seq::empty())
        } else {
            front.update(front.len() - 1, front.last().push(s.last()))
        }
    }
}

proof fn lemma_split_nonempty(s: Seq<char>)
    ensures
        split_on_space(s).len() >= 1,
    decreases s.len(),
{
    if s.len() > 0 {
        lemma_split_nonempty(s.drop_last());
    }
}

/// What `str::trim` leaves of `s`.
pub uninterp spec fn trimmed(s: Seq<char>) -> Seq<char>;

/// Relies on `str::trim`: white space at both ends is removed, and the result
/// depends on the characters of `s` alone.
#[verifier::external_body]
fn trim_text<'a>(s: &'a str) -> (r: &'a str)
    ensures
        r@ == trimmed(s@),
{
    s.trim()
}

/// The pieces of `text` between single spaces.
pub fn split_args(text: &str) -> (r: Vec<String>)
    ensures
        r.deep_view() == split_on_space(text@),
{
    let n = text.unicode_len();
    let mut parts: Vec<String> = Vec::new();
    let mut current = String::new();
    let mut i: usize = 0;
    assert(text@.subrange(0, 0) =~= Seq::<char>::empty());
    while i < n
        invariant
            n == text@.len(),
            i <= n,
            parts.deep_view().push(current@) == split_on_space(text@.subrange(0, i as int)),
        decreases n - i,
    {
        let ghost before = split_on_space(text@.subrange(0, i as int));
        proof {
            lemma_split_nonempty(text@.subrange(0, i as int));
        }
        let ghost old_parts = parts.deep_view();
        let ghost old_current = current@;
        let c = text.get_char(i);
        if c == ' ' {
            parts.push(current);
            current = String::new();
            assert(parts.deep_view() =~= old_parts.push(old_current));
        } else {
            let piece = text.substring_char(i, i + 1);
            assert(piece@ =~= seq![c]);
            current.append(piece);
            assert(current@ =~= old_current.push(c));
            assert(parts.deep_view() == old_parts);
        }
        i = i + 1;
        assert(text@.subrange(0, i as int).drop_last() =~= text@.subrange(0, i - 1));
        assert(text@.subrange(0, i as int).last() == c);
        assert(before == old_parts.push(old_current));
        if c == ' ' {
            assert(parts.deep_view().push(current@) =~= before.push(Seq::empty()));
        } else {
            assert(parts.deep_view().push(current@) =~= before.update(
                before.len() - 1,
                before.last().push(c),
            ));
        }
        assert(parts.deep_view().push(current@) =~= split_on_space(text@.subrange(0, i as int)));
    }
    assert(text@.subrange(0, n as int) =~= text@);
    parts.push(current);
    assert(parts.deep_view() =~= split_on_space(text@));
    parts
}

/// The arguments that `text` stands for: its trimmed form, cut at single
/// spaces.
pub fn command_args(text: &str) -> (r: Vec<String>)
    ensures
        r.deep_view() == split_on_space(trimmed(text@)),
{
    split_args(trim_text(text))
}

} // verus!
