use vstd::prelude::*;
use vstd::string::StrSliceExecFns;
use vstd::string::StringExecFns;

verus! {

/// Relies on `alloc::string::String::push`: appends exactly one character.
#[verifier::external_body]
pub fn push_char(s: &mut String, c: char)
    ensures
        final(s)@ == old(s)@.push(c),
{
    s.push(c);
}

/// The lower-case hexadecimal digit of a value below sixteen (also the
/// decimal digit of a value below ten).
pub open spec fn hex_digit(n: u32) -> char
    recommends
        n < 16,
{
    if n == 0 {
        '0'
    } else if n == 1 {
        '1'
    } else if n == 2 {
        '2'
    } else if n == 3 {
        '3'
    } else if n == 4 {
        '4'
    } else if n == 5 {
        '5'
    } else if n == 6 {
        '6'
    } else if n == 7 {
        '7'
    } else if n == 8 {
        '8'
    } else if n == 9 {
        '9'
    } else if n == 10 {
        'a'
    } else if n == 11 {
        'b'
    } else if n == 12 {
        'c'
    } else if n == 13 {
        'd'
    } else if n == 14 {
        'e'
    } else {
        'f'
    }
}

/// The hexadecimal digit as a value.
pub fn hex_digit_char(n: u32) -> (c: char)
    requires
        n < 16,
    ensures
        c == hex_digit(n),
{
    if n == 0 {
        '0'
    } else if n == 1 {
        '1'
    } else if n == 2 {
        '2'
    } else if n == 3 {
        '3'
    } else if n == 4 {
        '4'
    } else if n == 5 {
        '5'
    } else if n == 6 {
        '6'
    } else if n == 7 {
        '7'
    } else if n == 8 {
        '8'
    } else if n == 9 {
        '9'
    } else if n == 10 {
        'a'
    } else if n == 11 {
        'b'
    } else if n == 12 {
        'c'
    } else if n == 13 {
        'd'
    } else if n == 14 {
        'e'
    } else {
        'f'
    }
}

/// How one character reads inside a JSON string literal: the quote and the
/// backslash are escaped, the common control characters get their short
/// escapes, any other control character its four-digit escape, and everything
/// else stands as itself.
pub open spec fn json_escaped_char(c: char) -> Seq<char> {
    if c == '"' {
        seq!['\\', '"']
    } else if c == '\\' {
        seq!['\\', '\\']
    } else if c == '\n' {
        seq!['\\', 'n']
    } else if c == '\r' {
        seq!['\\', 'r']
    } else if c == '\t' {
        seq!['\\', 't']
    } else if (c as u32) < 32 {
        seq!['\\', 'u', '0', '0', hex_digit((c as u32) / 16), hex_digit((c as u32) % 16)]
    } else {
        seq![c]
    }
}

/// How a character sequence reads inside a JSON string literal.
pub open spec fn json_escaped(s: Seq<char>) -> Seq<char>
    decreases s.len(),
{
    if s.len() == 0 {
        Seq::empty()
    } else {
        json_escaped_char(s.first()) + json_escaped(s.drop_first())
    }
}

/// A JSON string literal: the escaped text between double quotes.
pub open spec fn json_string_text(s: Seq<char>) -> Seq<char> {
    seq!['"'] + json_escaped(s) + seq!['"']
}

/// Append one character of a JSON string literal's body.
fn append_escaped_char(out: &mut String, c: char)
    ensures
        final(out)@ == old(out)@ + json_escaped_char(c),
{
    if c == '"' {
        push_char(out, '\\');
        push_char(out, '"');
    } else if c == '\\' {
        push_char(out, '\\');
        push_char(out, '\\');
    } else if c == '\n' {
        push_char(out, '\\');
        push_char(out, 'n');
    } else if c == '\r' {
        push_char(out, '\\');
        push_char(out, 'r');
    } else if c == '\t' {
        push_char(out, '\\');
        push_char(out, 't');
    } else if (c as u32) < 32 {
        let u = c as u32;
        push_char(out, '\\');
        push_char(out, 'u');
        push_char(out, '0');
        push_char(out, '0');
        push_char(out, hex_digit_char(u / 16));
        push_char(out, hex_digit_char(u % 16));
    } else {
        push_char(out, c);
    }
}

/// Render a text as a JSON string literal.
pub fn json_string(s: &str) -> (r: String)
    ensures
        r@ == json_string_text(s@),
{
    let mut out = String::new();
    push_char(&mut out, '"');
    let n = s.unicode_len();
    assert(s@.skip(0) == s@);
    for i in 0..n
        invariant
            n == s@.len(),
            out@ =~= seq!['"'] + json_escaped(s@.take(i as int)),
            json_escaped(s@) =~= json_escaped(s@.take(i as int)) + json_escaped(s@.skip(i as int)),
    {
        let c = s.get_char(i);
        append_escaped_char(&mut out, c);
        proof {
            assert(s@.take(i as int).push(c) =~= s@.take(i + 1));
            lemma_json_escaped_snoc(s@.take(i as int), c);
            lemma_json_escaped_split(s@, i + 1);
        }
    }
    push_char(&mut out, '"');
    assert(s@.take(n as int) == s@);
    assert(out@ =~= json_string_text(s@));
    out
}

/// Escaping a sequence with one more character on the end escapes the prefix
/// and then that character.
proof fn lemma_json_escaped_snoc(s: Seq<char>, c: char)
    ensures
        json_escaped(s.push(c)) == json_escaped(s) + json_escaped_char(c),
    decreases s.len(),
{
    if s.len() == 0 {
        assert(s.push(c).first() == c);
        assert(s.push(c).drop_first() =~= Seq::<char>::empty());
        assert(json_escaped(s.push(c)) == json_escaped_char(c) + json_escaped(
            Seq::<char>::empty(),
        ));
        assert(json_escaped(s.push(c)) =~= json_escaped_char(c));
        assert(json_escaped(s) + json_escaped_char(c) =~= json_escaped_char(c));
    } else {
        assert(s.push(c).drop_first() =~= s.drop_first().push(c));
        assert(s.push(c).first() == s.first());
        lemma_json_escaped_snoc(s.drop_first(), c);
        assert(json_escaped(s.push(c)) =~= json_escaped(s) + json_escaped_char(c));
    }
}

/// Escaping distributes over splitting a sequence at any point.
proof fn lemma_json_escaped_split(s: Seq<char>, i: int)
    requires
        0 <= i <= s.len(),
    ensures
        json_escaped(s) == json_escaped(s.take(i)) + json_escaped(s.skip(i)),
    decreases i,
{
    if i == 0 {
        assert(s.take(0) =~= Seq::<char>::empty());
        assert(s.skip(0) =~= s);
        assert(json_escaped(s) =~= json_escaped(s.take(0)) + json_escaped(s.skip(0)));
    } else {
        lemma_json_escaped_split(s, i - 1);
        lemma_json_escaped_snoc(s.take(i - 1), s[i - 1]);
        assert(s.take(i - 1).push(s[i - 1]) =~= s.take(i));
        assert(json_escaped(s.skip(i - 1)) =~= json_escaped_char(s[i - 1]) + json_escaped(s.skip(i)))
            by {
            assert(s.skip(i - 1).first() == s[i - 1]);
            assert(s.skip(i - 1).drop_first() =~= s.skip(i));
        }
        assert(json_escaped(s) =~= json_escaped(s.take(i)) + json_escaped(s.skip(i)));
    }
}

/// The decimal representation of a number, most significant digit first, with
/// no leading zeros (zero itself reads "0").
pub open spec fn dec_rep(n: nat) -> Seq<char>
    decreases n,
{
    if n < 10 {
        seq![hex_digit(n as u32)]
    } else {
        dec_rep(n / 10).push(hex_digit((n % 10) as u32))
    }
}

/// Render a number in decimal.
pub fn u32_dec(n: u32) -> (r: String)
    ensures
        r@ == dec_rep(n as nat),
    decreases n,
{
    if n < 10 {
        let mut out = String::new();
        push_char(&mut out, hex_digit_char(n));
        assert(out@ =~= dec_rep(n as nat));
        out
    } else {
        let mut out = u32_dec(n / 10);
        push_char(&mut out, hex_digit_char(n % 10));
        assert((n / 10) as nat == n as nat / 10);
        assert((n % 10) as nat == n as nat % 10);
        out
    }
}

} // verus!
