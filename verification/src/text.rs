//! Text primitives: decimal numerals, title case, joining and the lexical
//! order of strings. Every contract is stated over character sequences.

use vstd::prelude::*;

verus! {

/// `String::push` of the standard library appends one character at the end of
/// the string and leaves the characters before it as they were.
pub assume_specification[ String::push ](s: &mut String, ch: char)
    ensures
        final(s)@ == old(s)@.push(ch),
;

/// The character that stands for the digit `d` in a decimal numeral.
pub open spec fn digit_char(d: nat) -> char
    recommends
        d < 10,
{
    (48 + d) as char
}

/// True for the ten characters `'0'` to `'9'`.
pub open spec fn is_digit(c: char) -> bool {
    '0' <= c <= '9'
}

/// The digit that a digit character stands for.
pub open spec fn digit_value(c: char) -> nat
    recommends
        is_digit(c),
{
    (c as nat - 48) as nat
}

/// The decimal numeral of `n`: most significant digit first, no sign, no
/// grouping separators, and no leading zero except for zero itself.
pub open spec fn decimal(n: nat) -> Seq<char>
    decreases n,
{
    if n < 10 {
        seq![digit_char(n)]
    } else {
        decimal(n / 10).push(digit_char(n % 10))
    }
}

/// True when `s` is a non-empty run of digit characters.
pub open spec fn is_numeral(s: Seq<char>) -> bool {
    s.len() > 0 && forall|i: int| 0 <= i < s.len() ==> is_digit(#[trigger] s[i])
}

/// The number that a run of digit characters denotes in base ten.
pub open spec fn numeral_value(s: Seq<char>) -> nat
    decreases s.len(),
{
    if s.len() == 0 {
        0
    } else {
        numeral_value(s.drop_last()) * 10 + digit_value(s.last())
    }
}

/// Reading a text as a decimal numeral: the number it denotes, or `None` when
/// the text is empty or holds anything but digits.
pub open spec fn parse_numeral(s: Seq<char>) -> Option<nat> {
    if is_numeral(s) {
        Some(numeral_value(s))
    } else {
        None
    }
}

/// Writing a number as a decimal numeral and reading the numeral back gives
/// the number again: the rendering loses nothing.
pub proof fn decimal_round_trip(n: nat)
    ensures
        is_numeral(decimal(n)),
        parse_numeral(decimal(n)) == Some(n),
    decreases n,
{
    if n < 10 {
        assert(decimal(n).drop_last() =~= Seq::<char>::empty());
        assert(numeral_value(decimal(n).drop_last()) == 0);
    } else {
        decimal_round_trip(n / 10);
        assert(decimal(n).drop_last() =~= decimal(n / 10));
    }
}

/// The digit character for a value below ten.
fn digit_of(d: u32) -> (c: char)
    requires
        d < 10,
    ensures
        c == digit_char(d as nat),
        is_digit(c),
{
    let code: u8 = 48u8 + (d as u8);
    code as char
}

/// Appends the decimal numeral of `n` to `out`.
fn push_decimal(out: &mut String, n: u32)
    ensures
        final(out)@ == old(out)@ + decimal(n as nat),
    decreases n,
{
    if n >= 10 {
        push_decimal(out, n / 10);
    }
    out.push(digit_of(n % 10));
    proof {
        if n >= 10 {
            assert(old(out)@ + decimal(n as nat) =~= (old(out)@ + decimal((n / 10) as nat)).push(
                digit_char((n % 10) as nat),
            ));
        } else {
            assert(old(out)@ + decimal(n as nat) =~= old(out)@.push(digit_char(n as nat)));
        }
    }
}

/// Renders a number as its decimal numeral.
pub fn format_decimal(n: u32) -> (text: String)
    ensures
        text@ == decimal(n as nat),
{
    let mut text = String::new();
    push_decimal(&mut text, n);
    assert(Seq::<char>::empty() + decimal(n as nat) =~= decimal(n as nat));
    text
}

/// A numeral's value is never below the value of one of its prefixes.
proof fn numeral_value_grows(s: Seq<char>, k: int)
    requires
        0 <= k <= s.len(),
    ensures
        numeral_value(s.take(k)) <= numeral_value(s),
    decreases s.len() - k,
{
    if k == s.len() {
        assert(s.take(k) =~= s);
    } else {
        numeral_value_grows(s, k + 1);
        assert(s.take(k + 1).drop_last() =~= s.take(k));
    }
}

/// Reads a text as a decimal numeral. Returns `None` when the text is empty,
/// holds a character that is no digit, or denotes a number above `u32::MAX`.
pub fn parse_decimal(text: &str) -> (value: Option<u32>)
    ensures
        value == match parse_numeral(text@) {
            Some(v) => if v <= u32::MAX {
                Some(v as u32)
            } else {
                None
            },
            None => None,
        },
{
    broadcast use vstd::string::group_string_axioms;

    let mut total: u32 = 0;
    let mut any: bool = false;
    for c in it: text.chars()
        invariant
            it.seq() == text@,
            any == (it.index() > 0),
            total == numeral_value(text@.take(it.index() as int)),
            forall|i: int| 0 <= i < it.index() ==> is_digit(#[trigger] text@[i]),
    {
        let ghost k = it.index() as int;
        if c < '0' || c > '9' {
            assert(!is_digit(text@[k]));
            return None;
        }
        let d: u32 = ((c as u8) - 48u8) as u32;
        proof {
            assert(text@.take(k + 1).drop_last() =~= text@.take(k));
            assert(text@.take(k + 1).last() == c);
            assert(numeral_value(text@.take(k + 1)) == total * 10 + d);
            numeral_value_grows(text@, k + 1);
        }
        if total > (u32::MAX - d) / 10 {
            // The next step would pass `u32::MAX`, and the digits that follow
            // cannot make the number smaller.
            proof {
                if is_numeral(text@) {
                    assert(total * 10 + d > u32::MAX);
                }
            }
            return None;
        }
        total = total * 10 + d;
        any = true;
    }
    proof {
        assert(text@.take(text@.len() as int) =~= text@);
    }
    if !any {
        None
    } else {
        Some(total)
    }
}

/// The upper-case form of an ASCII letter; any other character unchanged.
pub open spec fn ascii_upper(c: char) -> char {
    if 'a' <= c <= 'z' {
        (c as nat - 32) as char
    } else {
        c
    }
}

/// The lower-case form of an ASCII letter; any other character unchanged.
pub open spec fn ascii_lower(c: char) -> char {
    if 'A' <= c <= 'Z' {
        (c as nat + 32) as char
    } else {
        c
    }
}

/// A word in title case: its first character in upper case and every other
/// character in lower case, whatever the case of the input was. Only ASCII
/// letters change; the length stays the same.
pub open spec fn titlecase_text(word: Seq<char>) -> Seq<char> {
    Seq::new(
        word.len(),
        |i: int|
            if i == 0 {
                ascii_upper(word[i])
            } else {
                ascii_lower(word[i])
            },
    )
}

/// Title case leaves a word that is already in title case as it is.
pub proof fn titlecase_is_idempotent(word: Seq<char>)
    ensures
        titlecase_text(titlecase_text(word)) == titlecase_text(word),
{
    assert(titlecase_text(titlecase_text(word)) =~= titlecase_text(word));
}

fn to_ascii_upper(c: char) -> (r: char)
    ensures
        r == ascii_upper(c),
{
    if c >= 'a' && c <= 'z' {
        ((c as u8) - 32u8) as char
    } else {
        c
    }
}

fn to_ascii_lower(c: char) -> (r: char)
    ensures
        r == ascii_lower(c),
{
    if c >= 'A' && c <= 'Z' {
        ((c as u8) + 32u8) as char
    } else {
        c
    }
}

/// Puts a word in title case. The empty word stays empty.
pub fn titlecase(word: String) -> (label: String)
    ensures
        label@ == titlecase_text(word@),
{
    broadcast use vstd::string::group_string_axioms;

    let mut label = String::new();
    let mut first: bool = true;
    for c in it: word.as_str().chars()
        invariant
            it.seq() == word@,
            first == (it.index() == 0),
            label@ == titlecase_text(word@).take(it.index() as int),
    {
        let ghost k = it.index() as int;
        let shown: char = if first {
            to_ascii_upper(c)
        } else {
            to_ascii_lower(c)
        };
        label.push(shown);
        first = false;
        assert(titlecase_text(word@).take(k + 1) =~= titlecase_text(word@).take(k).push(shown));
    }
    assert(titlecase_text(word@).take(word@.len() as int) =~= titlecase_text(word@));
    label
}

/// The parts written one after the other with `sep` between each two
/// neighbours: nothing before the first part and nothing after the last.
pub open spec fn joined(parts: Seq<Seq<char>>, sep: Seq<char>) -> Seq<char>
    decreases parts.len(),
{
    if parts.len() == 0 {
        Seq::empty()
    } else if parts.len() == 1 {
        parts[0]
    } else {
        joined(parts.drop_last(), sep) + sep + parts.last()
    }
}

/// Joins the parts with `sep` between each two neighbours.
pub fn join(parts: &Vec<String>, sep: &str) -> (text: String)
    ensures
        text@ == joined(parts.deep_view(), sep@),
{
    let mut text = String::new();
    let mut i: usize = 0;
    while i < parts.len()
        invariant
            i <= parts.len(),
            text@ == joined(parts.deep_view().take(i as int), sep@),
        decreases parts.len() - i,
    {
        let ghost before = parts.deep_view().take(i as int);
        let ghost after = parts.deep_view().take(i + 1);
        if i > 0 {
            text.append(sep);
        }
        text.append(parts[i].as_str());
        proof {
            assert(after.drop_last() =~= before);
            assert(after.last() == parts[i as int]@);
            if i == 0 {
                assert(Seq::<char>::empty() + parts[i as int]@ =~= parts[i as int]@);
            }
        }
        i = i + 1;
    }
    assert(parts.deep_view().take(parts.len() as int) =~= parts.deep_view());
    text
}

/// The lexical order of texts: the first position at which two texts differ
/// decides, by the code points found there; a text that is the beginning of
/// another comes before it.
pub open spec fn lex_le(a: Seq<char>, b: Seq<char>) -> bool
    decreases a.len(),
{
    if a.len() == 0 {
        true
    } else if b.len() == 0 {
        false
    } else if a[0] != b[0] {
        a[0] < b[0]
    } else {
        lex_le(a.drop_first(), b.drop_first())
    }
}

/// Every text is at or before itself.
pub proof fn lex_le_reflexive(a: Seq<char>)
    ensures
        lex_le(a, a),
    decreases a.len(),
{
    if a.len() > 0 {
        lex_le_reflexive(a.drop_first());
    }
}

/// Of two texts, one is at or before the other.
pub proof fn lex_le_total(a: Seq<char>, b: Seq<char>)
    ensures
        lex_le(a, b) || lex_le(b, a),
    decreases a.len(),
{
    if a.len() > 0 && b.len() > 0 && a[0] == b[0] {
        lex_le_total(a.drop_first(), b.drop_first());
    }
}

/// Two texts that are each at or before the other are the same text.
pub proof fn lex_le_antisymmetric(a: Seq<char>, b: Seq<char>)
    requires
        lex_le(a, b),
        lex_le(b, a),
    ensures
        a == b,
    decreases a.len(),
{
    if a.len() == 0 || b.len() == 0 {
        assert(a =~= b);
    } else {
        lex_le_antisymmetric(a.drop_first(), b.drop_first());
        assert(a =~= seq![a[0]] + a.drop_first());
        assert(b =~= seq![b[0]] + b.drop_first());
    }
}

/// The lexical order is transitive.
pub proof fn lex_le_transitive(a: Seq<char>, b: Seq<char>, c: Seq<char>)
    requires
        lex_le(a, b),
        lex_le(b, c),
    ensures
        lex_le(a, c),
    decreases a.len(),
{
    if a.len() > 0 && a[0] == b[0] && b[0] == c[0] {
        lex_le_transitive(a.drop_first(), b.drop_first(), c.drop_first());
    }
}

/// Two texts that agree on their first `k` characters compare as what is
/// left of them after those characters.
proof fn lex_le_skips_common_prefix(a: Seq<char>, b: Seq<char>, k: int)
    requires
        0 <= k <= a.len(),
        k <= b.len(),
        a.take(k) == b.take(k),
    ensures
        lex_le(a, b) == lex_le(a.skip(k), b.skip(k)),
    decreases k,
{
    if k == 0 {
        assert(a.skip(0) =~= a);
        assert(b.skip(0) =~= b);
    } else {
        assert(a[0] == a.take(k)[0]);
        assert(b[0] == b.take(k)[0]);
        assert(a.drop_first().take(k - 1) =~= a.take(k).drop_first());
        assert(b.drop_first().take(k - 1) =~= b.take(k).drop_first());
        lex_le_skips_common_prefix(a.drop_first(), b.drop_first(), k - 1);
        assert(a.drop_first().skip(k - 1) =~= a.skip(k));
        assert(b.drop_first().skip(k - 1) =~= b.skip(k));
    }
}

/// Collects the characters of a text.
pub fn chars_of(text: &str) -> (chars: Vec<char>)
    ensures
        chars@ == text@,
{
    broadcast use vstd::string::group_string_axioms;

    let mut chars: Vec<char> = Vec::new();
    for c in it: text.chars()
        invariant
            it.seq() == text@,
            chars@ == text@.take(it.index() as int),
    {
        assert(text@.take(it.index() + 1) =~= text@.take(it.index() as int).push(c));
        chars.push(c);
    }
    assert(text@.take(text@.len() as int) =~= text@);
    chars
}

/// Makes a text of the characters from `from` up to, not including, `to`.
pub fn text_of(chars: &Vec<char>, from: usize, to: usize) -> (text: String)
    requires
        from <= to <= chars.len(),
    ensures
        text@ == chars@.subrange(from as int, to as int),
{
    let mut text = String::new();
    let mut i: usize = from;
    while i < to
        invariant
            from <= i <= to,
            to <= chars.len(),
            text@ == chars@.subrange(from as int, i as int),
        decreases to - i,
    {
        text.push(chars[i]);
        assert(chars@.subrange(from as int, i + 1) =~= chars@.subrange(from as int, i as int).push(
            chars@[i as int],
        ));
        i = i + 1;
    }
    text
}

/// Decides whether two texts hold the same characters.
pub fn same_text(a: &str, b: &str) -> (r: bool)
    ensures
        r == (a@ == b@),
{
    let left = chars_of(a);
    let right = chars_of(b);
    if left.len() != right.len() {
        return false;
    }
    let mut i: usize = 0;
    while i < left.len()
        invariant
            i <= left.len(),
            left.len() == right.len(),
            left@ == a@,
            right@ == b@,
            forall|k: int| 0 <= k < i ==> a@[k] == b@[k],
        decreases left.len() - i,
    {
        if left[i] != right[i] {
            return false;
        }
        i = i + 1;
    }
    assert(a@ =~= b@);
    true
}

/// Decides whether `a` is at or before `b` in the lexical order.
pub fn lexically_at_most(a: &str, b: &str) -> (r: bool)
    ensures
        r == lex_le(a@, b@),
{
    let left = chars_of(a);
    let right = chars_of(b);
    let mut i: usize = 0;
    while i < left.len() && i < right.len()
        invariant
            i <= left.len(),
            i <= right.len(),
            left@ == a@,
            right@ == b@,
            a@.take(i as int) == b@.take(i as int),
        decreases left.len() - i,
    {
        if left[i] != right[i] {
            proof {
                lex_le_skips_common_prefix(a@, b@, i as int);
            }
            return left[i] < right[i];
        }
        assert(a@.take(i + 1) =~= a@.take(i as int).push(a@[i as int]));
        assert(b@.take(i + 1) =~= b@.take(i as int).push(b@[i as int]));
        i = i + 1;
    }
    proof {
        lex_le_skips_common_prefix(a@, b@, i as int);
    }
    i == left.len()
}

} // verus!
