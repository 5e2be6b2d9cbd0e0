//! Numbers and bytes as text.

use vstd::prelude::*;

verus! {

/// The digit that stands for `d`, up to fifteen.
pub open spec fn digit(d: nat) -> char {
    if d < 10 {
        (48 + d) as char
    } else {
        (87 + d) as char
    }
}

/// `n` in decimal digits.
pub open spec fn decimal(n: nat) -> Seq<char>
    decreases n,
{
    if n < 10 {
        seq![digit(n)]
    } else {
        decimal(n / 10).push(digit(n % 10))
    }
}

/// Two lower-case hexadecimal digits for each byte.
pub open spec fn hex(s: Seq<u8>) -> Seq<char>
    decreases s.len(),
{
    if s.len() == 0 {
        Seq::empty()
    } else {
        hex(s.drop_last()) + seq![digit(s.last() as nat / 16), digit(s.last() as nat % 16)]
    }
}

/// The digit that stands for `d`, as a text of one character.
fn digit_text(d: u8) -> (r: &'static str)
    requires
        d < 16,
    ensures
        r@ == seq![digit(d as nat)],
{
    proof {
        reveal_strlit("0");
        reveal_strlit("1");
        reveal_strlit("2");
        reveal_strlit("3");
        reveal_strlit("4");
        reveal_strlit("5");
        reveal_strlit("6");
        reveal_strlit("7");
        reveal_strlit("8");
        reveal_strlit("9");
        reveal_strlit("a");
        reveal_strlit("b");
        reveal_strlit("c");
        reveal_strlit("d");
        reveal_strlit("e");
        reveal_strlit("f");
    }
    let r: &'static str = match d {
        0 => "0",
        1 => "1",
        2 => "2",
        3 => "3",
        4 => "4",
        5 => "5",
        6 => "6",
        7 => "7",
        8 => "8",
        9 => "9",
        10 => "a",
        11 => "b",
        12 => "c",
        13 => "d",
        14 => "e",
        _ => "f",
    };
    assert(r@ =~= seq![digit(d as nat)]);
    r
}

/// Appends `n` in decimal digits.
pub fn append_decimal(out: &mut String, n: u64)
    ensures
        final(out)@ == old(out)@ + decimal(n as nat),
    decreases n,
{
    if n >= 10 {
        append_decimal(out, n / 10);
    }
    out.append(digit_text((n % 10) as u8));
    assert(out@ =~= old(out)@ + decimal(n as nat));
}

/// Appends two hexadecimal digits for each byte.
pub fn append_hex(out: &mut String, bytes: &[u8])
    ensures
        final(out)@ == old(out)@ + hex(bytes@),
{
    let ghost start = out@;
    let mut i: usize = 0;
    assert(out@ =~= start + hex(bytes@.take(0)));
    while i < bytes.len()
        invariant
            i <= bytes@.len(),
            out@ == start + hex(bytes@.take(i as int)),
        decreases bytes@.len() - i,
    {
        let b: u8 = bytes[i];
        out.append(digit_text(b / 16));
        out.append(digit_text(b % 16));
        proof {
            let next = bytes@.take(i + 1);
            assert(next.drop_last() =~= bytes@.take(i as int));
            assert(next.last() == b);
            assert(out@ =~= start + hex(next));
        }
        i = i + 1;
    }
    assert(bytes@.take(i as int) =~= bytes@);
}

// ---------------------------------------------------------------------------------------------
// Lines
// ---------------------------------------------------------------------------------------------

/// The text with every line moved to the right by four spaces.
pub open spec fn indented(s: Seq<char>) -> Seq<char>
    decreases s.len(),
{
    if s.len() == 0 {
        Seq::empty()
    } else if s.len() == 1 || s[s.len() - 2] == '\n' {
        indented(s.drop_last()) + "    "@ + seq![s.last()]
    } else {
        indented(s.drop_last()) + seq![s.last()]
    }
}

/// A line, whole or not, is moved to the right as one.
proof fn lemma_indented_line(s: Seq<char>, from: int, to: int)
    requires
        0 <= from < to <= s.len(),
        from == 0 || s[from - 1] == '\n',
        forall|i: int| from <= i < to - 1 ==> s[i] != '\n',
    ensures
        indented(s.take(to)) == indented(s.take(from)) + "    "@ + s.subrange(from, to),
    decreases to - from,
{
    let text = s.take(to);
    assert(text.drop_last() =~= s.take(to - 1));
    if to == from + 1 {
        assert(s.subrange(from, to) =~= seq![s[from]]);
    } else {
        lemma_indented_line(s, from, to - 1);
        assert(text[text.len() - 2] == s[to - 2]);
        assert(s.subrange(from, to) =~= s.subrange(from, to - 1) + seq![s[to - 1]]);
        assert(indented(text) =~= indented(s.take(from)) + "    "@ + s.subrange(from, to));
    }
}

/// Appends the text with every line moved to the right by four spaces.
pub fn append_indented(out: &mut String, text: &str)
    ensures
        final(out)@ == old(out)@ + indented(text@),
{
    let ghost start = out@;
    let ghost s = text@;
    let n: usize = text.unicode_len();
    let mut from: usize = 0;
    let mut i: usize = 0;
    assert(s.take(0) =~= Seq::empty());
    assert(out@ =~= start + indented(s.take(0)));
    for c in it: text.chars()
        invariant
            it.seq() == s,
            s == text@,
            n == s.len(),
            i == it.index(),
            from <= i <= n,
            from == 0 || s[from - 1] == '\n',
            forall|j: int| from <= j < i ==> s[j] != '\n',
            out@ == start + indented(s.take(from as int)),
    {
        assert(c == s[i as int]);
        i = i + 1;
        if c == '\n' {
            out.append("    ");
            out.append(text.substring_char(from, i));
            proof {
                lemma_indented_line(s, from as int, i as int);
                assert(out@ =~= start + indented(s.take(i as int)));
            }
            from = i;
        }
    }
    if from < n {
        out.append("    ");
        out.append(text.substring_char(from, n));
        proof {
            lemma_indented_line(s, from as int, n as int);
            assert(out@ =~= start + indented(s.take(n as int)));
        }
    }
    assert(s.take(n as int) =~= s);
}

/// A field of a value that is shown on several lines.
pub open spec fn field_line(name: Seq<char>, text: Seq<char>) -> Seq<char> {
    indented(name + ": "@ + text + ",\n"@)
}

/// A variant, shown on several lines around what it holds.
pub open spec fn variant_lines(name: Seq<char>, text: Seq<char>) -> Seq<char> {
    name + "(\n"@ + indented(text + ",\n"@) + ")"@
}

/// Appends a field of a value that is shown on several lines.
pub fn append_field(out: &mut String, name: &str, text: &str)
    ensures
        final(out)@ == old(out)@ + field_line(name@, text@),
{
    let mut line = String::new();
    line.append(name);
    line.append(": ");
    line.append(text);
    line.append(",\n");
    assert(line@ =~= name@ + ": "@ + text@ + ",\n"@);
    append_indented(out, line.as_str());
}

/// Appends a variant, shown on several lines around what it holds.
pub fn append_variant(out: &mut String, name: &str, text: &str)
    ensures
        final(out)@ == old(out)@ + variant_lines(name@, text@),
{
    let mut line = String::new();
    line.append(text);
    line.append(",\n");
    assert(line@ =~= text@ + ",\n"@);
    out.append(name);
    out.append("(\n");
    append_indented(out, line.as_str());
    out.append(")");
    assert(out@ =~= old(out)@ + variant_lines(name@, text@));
}

/// The text of a number in decimal digits.
pub fn decimal_text(n: u64) -> (r: String)
    ensures
        r@ == decimal(n as nat),
{
    let mut out = String::new();
    append_decimal(&mut out, n);
    assert(out@ =~= decimal(n as nat));
    out
}

} // verus!
