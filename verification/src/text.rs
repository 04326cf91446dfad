//! Small text utilities shared by the packager and the plugin loader.
use vstd::prelude::*;
use vstd::string::StrSliceExecFns;

verus! {

/// Appends one character to a `String` (`String::push`).
#[verifier::external_body]
pub(crate) fn push_char(s: &mut String, c: char)
    ensures
        final(s)@ == old(s)@.push(c),
{
    s.push(c)
}

/// `s` with every `from` character replaced by `to`.
pub(crate) fn replace_char(s: &str, from: char, to: char) -> (r: String)
    ensures
        r@ == s@.map_values(|c: char| if c == from { to } else { c }),
{
    let n = s.unicode_len();
    let mut r = String::new();
    let mut i: usize = 0;
    while i < n
        invariant
            n == s@.len(),
            i <= n,
            r@ =~= s@.subrange(0, i as int).map_values(|c: char| if c == from { to } else { c }),
        decreases n - i,
    {
        let c = s.get_char(i);
        if c == from {
            push_char(&mut r, to);
        } else {
            push_char(&mut r, c);
        }
        assert(s@.subrange(0, i + 1) =~= s@.subrange(0, i as int).push(c));
        i += 1;
    }
    assert(s@.subrange(0, n as int) =~= s@);
    r
}

/// The lower-case hexadecimal digit for `d` (below 16).
pub open spec fn hex_digit(d: nat) -> char {
    if d < 10 {
        (48 + d) as char
    } else {
        (87 + d) as char
    }
}

/// `n` written in lower-case hexadecimal, without leading zeros (as `{:x}` formats it).
pub open spec fn lower_hex(n: nat) -> Seq<char>
    decreases n,
{
    if n < 16 {
        seq![hex_digit(n)]
    } else {
        lower_hex(n / 16).push(hex_digit(n % 16))
    }
}

fn hex_digit_char(d: usize) -> (c: char)
    requires
        d < 16,
    ensures
        c == hex_digit(d as nat),
{
    if d < 10 {
        ((48 + d) as u8) as char
    } else {
        ((87 + d) as u8) as char
    }
}

/// Appends `n` in lower-case hexadecimal to `s`.
pub fn push_lower_hex(s: &mut String, n: usize)
    ensures
        final(s)@ == old(s)@ + lower_hex(n as nat),
    decreases n,
{
    if n >= 16 {
        push_lower_hex(s, n / 16);
    }
    let digit = hex_digit_char(n % 16);
    push_char(s, digit);
    assert(final(s)@ =~= old(s)@ + lower_hex(n as nat));
}

proof fn lemma_hex_digit_injective(a: nat, b: nat)
    requires
        a < 16,
        b < 16,
        hex_digit(a) == hex_digit(b),
    ensures
        a == b,
{
    assert((hex_digit(a) as u32) == (hex_digit(b) as u32));
}

proof fn lemma_lower_hex_len(n: nat)
    ensures
        lower_hex(n).len() >= 1,
        n >= 16 ==> lower_hex(n).len() >= 2,
    decreases n,
{
    if n >= 16 {
        lemma_lower_hex_len(n / 16);
    }
}

/// Law: different numbers have different hexadecimal names.
pub proof fn lemma_lower_hex_injective(a: nat, b: nat)
    requires
        lower_hex(a) == lower_hex(b),
    ensures
        a == b,
    decreases a,
{
    lemma_lower_hex_len(a);
    lemma_lower_hex_len(b);
    let ha = lower_hex(a);
    if a < 16 && b < 16 {
        assert(ha[0] == lower_hex(b)[0]);
        lemma_hex_digit_injective(a, b);
    } else if a >= 16 && b >= 16 {
        let hb = lower_hex(b);
        assert(ha.last() == hex_digit(a % 16));
        assert(hb.last() == hex_digit(b % 16));
        lemma_hex_digit_injective(a % 16, b % 16);
        assert(lower_hex(a / 16) =~= ha.drop_last());
        assert(lower_hex(b / 16) =~= hb.drop_last());
        lemma_lower_hex_injective(a / 16, b / 16);
    } else {
        lemma_lower_hex_len(a / 16);
        lemma_lower_hex_len(b / 16);
    }
}

} // verus!
