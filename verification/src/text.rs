//! Small things about strings that the rest of the library leans on.

use vstd::prelude::*;
use vstd::string::StringExecFns;
use crate::rows::{first_index, lemma_first_index_absent, lemma_first_index_is};

verus! {

/// View of an optional string.
pub open spec fn opt_view(o: Option<String>) -> Option<Seq<char>> {
    match o {
        Some(s) => Some(s@),
        None => None,
    }
}

/// The texts of a list of strings, in order.
pub open spec fn texts(v: Seq<String>) -> Seq<Seq<char>> {
    Seq::new(v.len(), |i: int| v[i]@)
}

/// The texts of a list of string slices, in order.
pub open spec fn strs(v: Seq<&str>) -> Seq<Seq<char>> {
    Seq::new(v.len(), |i: int| v[i]@)
}

/// Copy of a list of strings.
pub fn clone_texts(v: &Vec<String>) -> (r: Vec<String>)
    ensures
        r@ == v@,
{
    let mut out: Vec<String> = Vec::new();
    let mut i: usize = 0;
    while i < v.len()
        invariant
            i <= v.len(),
            out@ == v@.take(i as int),
        decreases v.len() - i,
    {
        out.push(v[i].clone());
        assert(out@ =~= v@.take(i + 1));
        i += 1;
    }
    assert(v@.take(v.len() as int) =~= v@);
    out
}

/// Copy of an optional string.
pub fn clone_opt(o: &Option<String>) -> (r: Option<String>)
    ensures
        r == *o,
{
    match o {
        Some(s) => Some(s.clone()),
        None => None,
    }
}

/// The parts, with `sep` between each two.
pub open spec fn joined(parts: Seq<Seq<char>>, sep: Seq<char>) -> Seq<char>
    decreases parts.len(),
{
    if parts.len() == 0 {
        Seq::empty()
    } else if parts.len() == 1 {
        parts[0]
    } else {
        joined(parts.drop_last(), sep) + sep + parts.last()
    }
}

/// Some entry of the list is this text.
pub open spec fn lists(list: Seq<String>, text: Seq<char>) -> bool {
    exists|i: int| 0 <= i < list.len() && (#[trigger] list[i])@ == text
}

/// Whether some entry of the list is this text.
pub fn is_listed(list: &Vec<String>, text: &String) -> (r: bool)
    ensures
        r == lists(list@, text@),
{
    let mut i: usize = 0;
    while i < list.len()
        invariant
            i <= list.len(),
            forall|j: int| 0 <= j < i ==> (#[trigger] list@[j])@ != text@,
        decreases list.len() - i,
    {
        if list[i] == *text {
            return true;
        }
        i += 1;
    }
    false
}

/// `text` with every non-overlapping occurrence of `from`, taken from the
/// left, replaced by `to`.
pub open spec fn spec_replace(text: Seq<char>, from: Seq<char>, to: Seq<char>) -> Seq<char>
    decreases text.len(),
{
    if from.len() == 0 || text.len() < from.len() {
        text
    } else if text.take(from.len() as int) == from {
        to + spec_replace(text.skip(from.len() as int), from, to)
    } else {
        seq![text[0]] + spec_replace(text.skip(1), from, to)
    }
}

/// `text` with every non-overlapping occurrence of `from`, taken from the
/// left, replaced by `to`. An empty `from` occurs nowhere.
pub fn replace(text: &str, from: &str, to: &str) -> (r: String)
    ensures
        r@ == spec_replace(text@, from@, to@),
{
    let n = text.unicode_len();
    let m = from.unicode_len();
    if m == 0 || n < m {
        return text.to_owned();
    }
    let wanted = from.to_owned();
    let mut out = String::new();
    let mut i: usize = 0;
    assert(text@.skip(0) =~= text@);
    assert(out@ + spec_replace(text@, from@, to@) =~= spec_replace(text@, from@, to@));
    while i < n
        invariant
            i <= n,
            n == text@.len(),
            m == from@.len(),
            m > 0,
            wanted@ == from@,
            out@ + spec_replace(text@.skip(i as int), from@, to@) == spec_replace(
                text@,
                from@,
                to@,
            ),
        decreases n - i,
    {
        let ghost rest = text@.skip(i as int);
        let ghost before = out@;
        if n - i < m {
            out.append(text.substring_char(i, n));
            proof {
                assert(text@.subrange(i as int, n as int) =~= rest);
                assert(text@.skip(n as int) =~= Seq::empty());
                assert(out@ + spec_replace(text@.skip(n as int), from@, to@) =~= before + rest);
            }
            i = n;
        } else if text.substring_char(i, i + m).to_owned() == wanted {
            out.append(to);
            proof {
                assert(text@.subrange(i as int, i + m) =~= rest.take(m as int));
                assert(rest.skip(m as int) =~= text@.skip(i + m));
                assert(out@ + spec_replace(text@.skip(i + m), from@, to@) =~= before + (to@
                    + spec_replace(rest.skip(m as int), from@, to@)));
            }
            i += m;
        } else {
            out.append(text.substring_char(i, i + 1));
            proof {
                assert(text@.subrange(i as int, i + m) =~= rest.take(m as int));
                assert(text@.subrange(i as int, i + 1) =~= seq![rest[0]]);
                assert(rest.skip(1) =~= text@.skip(i + 1));
                assert(out@ + spec_replace(text@.skip(i + 1), from@, to@) =~= before + (
                seq![rest[0]] + spec_replace(rest.skip(1), from@, to@)));
            }
            i += 1;
        }
    }
    assert(text@.skip(n as int) =~= Seq::empty());
    assert(out@ + Seq::<char>::empty() =~= out@);
    out
}

/// The digit for a number below ten.
pub open spec fn digit_text(d: int) -> Seq<char> {
    if d == 0 {
        "0"@
    } else if d == 1 {
        "1"@
    } else if d == 2 {
        "2"@
    } else if d == 3 {
        "3"@
    } else if d == 4 {
        "4"@
    } else if d == 5 {
        "5"@
    } else if d == 6 {
        "6"@
    } else if d == 7 {
        "7"@
    } else if d == 8 {
        "8"@
    } else {
        "9"@
    }
}

/// A natural number in decimal digits, without leading zeros.
pub open spec fn nat_text(n: nat) -> Seq<char>
    decreases n,
{
    if n < 10 {
        digit_text(n as int)
    } else {
        nat_text(n / 10) + digit_text((n % 10) as int)
    }
}

/// A number in decimal digits, with a minus sign if it is negative.
pub open spec fn decimal_text(n: int) -> Seq<char> {
    if n < 0 {
        "-"@ + nat_text((-n) as nat)
    } else {
        nat_text(n as nat)
    }
}

fn digit(d: u64) -> (r: &'static str)
    requires
        d < 10,
    ensures
        r@ == digit_text(d as int),
{
    if d == 0 {
        "0"
    } else if d == 1 {
        "1"
    } else if d == 2 {
        "2"
    } else if d == 3 {
        "3"
    } else if d == 4 {
        "4"
    } else if d == 5 {
        "5"
    } else if d == 6 {
        "6"
    } else if d == 7 {
        "7"
    } else if d == 8 {
        "8"
    } else {
        "9"
    }
}

/// A natural number in decimal digits.
pub fn nat_to_string(n: u64) -> (r: String)
    ensures
        r@ == nat_text(n as nat),
    decreases n,
{
    if n < 10 {
        digit(n).to_owned()
    } else {
        let mut out = nat_to_string(n / 10);
        out.append(digit(n % 10));
        out
    }
}

/// A number in decimal digits, with a minus sign if it is negative.
pub fn i32_to_string(n: i32) -> (r: String)
    ensures
        r@ == decimal_text(n as int),
{
    if n < 0 {
        let mut out = "-".to_owned();
        out.append(nat_to_string((-(n as i64)) as u64).as_str());
        out
    } else {
        nat_to_string(n as u64)
    }
}

/// Splits a text at the first occurrence of a character: the text
/// before it and the text after it; `None` when the character does not
/// occur.
pub fn split_once<'a>(s: &'a str, delimiter: char) -> (r: Option<(&'a str, &'a str)>)
    ensures
        match r {
            Some((head, tail)) => 0 <= first_index(s@, delimiter) < s@.len() && head@ == s@.take(
                first_index(s@, delimiter),
            ) && tail@ == s@.skip(first_index(s@, delimiter) + 1),
            None => first_index(s@, delimiter) == s@.len(),
        },
{
    let n = s.unicode_len();
    let mut i: usize = 0;
    while i < n
        invariant
            i <= n,
            n == s@.len(),
            forall|j: int| 0 <= j < i ==> s@[j] != delimiter,
        decreases n - i,
    {
        if s.get_char(i) == delimiter {
            proof {
                lemma_first_index_is(s@, delimiter, i as int);
                assert(s@.subrange(0, i as int) =~= s@.take(i as int));
                assert(s@.subrange(i + 1, n as int) =~= s@.skip(i + 1));
            }
            return Some((s.substring_char(0, i), s.substring_char(i + 1, n)));
        }
        i += 1;
    }
    proof {
        lemma_first_index_absent(s@, delimiter);
    }
    None
}

/// `s` without the characters `c` it begins with.
pub open spec fn trim_start_char(s: Seq<char>, c: char) -> Seq<char>
    decreases s.len(),
{
    if s.len() > 0 && s[0] == c {
        trim_start_char(s.skip(1), c)
    } else {
        s
    }
}

/// `s` without the characters `c` it ends with.
pub open spec fn trim_end_char(s: Seq<char>, c: char) -> Seq<char>
    decreases s.len(),
{
    if s.len() > 0 && s.last() == c {
        trim_end_char(s.drop_last(), c)
    } else {
        s
    }
}

/// `s` without the characters `c` at either end.
pub open spec fn trim_char(s: Seq<char>, c: char) -> Seq<char> {
    trim_end_char(trim_start_char(s, c), c)
}

/// Where the characters `c` at the start of `s` end, what is left of `s`
/// begins.
pub proof fn lemma_trim_start(s: Seq<char>, c: char, a: int)
    requires
        0 <= a <= s.len(),
        forall|j: int| 0 <= j < a ==> s[j] == c,
        a == s.len() || s[a] != c,
    ensures
        trim_start_char(s, c) == s.skip(a),
    decreases a,
{
    if a == 0 {
        assert(s.skip(0) =~= s);
    } else {
        assert(forall|j: int| 0 <= j < a - 1 ==> s.skip(1)[j] == s[j + 1]);
        lemma_trim_start(s.skip(1), c, a - 1);
        assert(s.skip(1).skip(a - 1) =~= s.skip(a));
    }
}

/// Where the characters `c` at the end of `s` begin, what is left of `s`
/// ends.
pub proof fn lemma_trim_end(s: Seq<char>, c: char, b: int)
    requires
        0 <= b <= s.len(),
        forall|j: int| b <= j < s.len() ==> s[j] == c,
        b == 0 || s[b - 1] != c,
    ensures
        trim_end_char(s, c) == s.take(b),
    decreases s.len() - b,
{
    if b == s.len() {
        assert(s.take(b) =~= s);
    } else {
        assert(forall|j: int| b <= j < s.len() - 1 ==> s.drop_last()[j] == s[j]);
        lemma_trim_end(s.drop_last(), c, b);
        assert(s.drop_last().take(b) =~= s.take(b));
    }
}

/// The text without the occurrences of a character that it begins and
/// ends with.
pub fn trim_matches<'a>(s: &'a str, c: char) -> (r: &'a str)
    ensures
        r@ == trim_char(s@, c),
{
    let n = s.unicode_len();
    let mut a: usize = 0;
    while a < n && s.get_char(a) == c
        invariant
            a <= n,
            n == s@.len(),
            forall|j: int| 0 <= j < a ==> s@[j] == c,
        decreases n - a,
    {
        a += 1;
    }
    let mut b: usize = n;
    while b > a && s.get_char(b - 1) == c
        invariant
            a <= b <= n,
            n == s@.len(),
            forall|j: int| b <= j < n ==> s@[j] == c,
        decreases b,
    {
        b -= 1;
    }
    proof {
        lemma_trim_start(s@, c, a as int);
        let t = s@.skip(a as int);
        assert(forall|j: int| b - a <= j < t.len() ==> t[j] == s@[j + a]);
        if b > a {
            assert(t[b - a - 1] == s@[b - 1]);
        }
        lemma_trim_end(t, c, b - a);
        assert(t.take(b - a) =~= s@.subrange(a as int, b as int));
    }
    s.substring_char(a, b)
}

/// The pieces of `s` between the occurrences of `d`.
pub open spec fn split_all(s: Seq<char>, d: char) -> Seq<Seq<char>>
    decreases s.len(),
{
    let i = first_index(s, d);
    if 0 <= i < s.len() {
        seq![s.take(i)] + split_all(s.skip(i + 1), d)
    } else {
        seq![s]
    }
}

/// Splits a text at every occurrence of a character.
pub fn split_list<'a>(s: &'a str, d: char) -> (r: Vec<&'a str>)
    ensures
        strs(r@) == split_all(s@, d),
{
    let mut out: Vec<&'a str> = Vec::new();
    let mut rest: &'a str = s;
    assert(strs(out@) =~= Seq::empty());
    loop
        invariant_except_break
            strs(out@) + split_all(rest@, d) == split_all(s@, d),
        ensures
            strs(out@) == split_all(s@, d),
        decreases rest@.len(),
    {
        let ghost before = strs(out@);
        match split_once(rest, d) {
            Some((head, tail)) => {
                out.push(head);
                assert(strs(out@) =~= before.push(head@));
                assert(before.push(head@) + split_all(tail@, d) =~= before + (seq![head@]
                    + split_all(tail@, d)));
                rest = tail;
            },
            None => {
                out.push(rest);
                assert(strs(out@) =~= before + seq![rest@]);
                break ;
            },
        }
    }
    out
}

/// The first byte of a character's UTF-8 encoding is below 128 exactly
/// when the character is ASCII, and then it is the character's number.
proof fn lemma_first_byte(c: u32)
    by (bit_vector)
    requires
        c <= 0x10FFFF,
    ensures
        c <= 0x7F ==> ((c & 0x7F) as u8) == (c as u8) && ((c & 0x7F) as u8) <= 127,
        (0x80 <= c && c <= 0x7FF) ==> (0xC0u8 | ((c >> 6) & 0x1F) as u8) >= 128,
        (0x800 <= c && c <= 0xFFFF) ==> (0xE0u8 | ((c >> 12) & 0x0F) as u8) >= 128,
        0x10000 <= c ==> (0xF0u8 | ((c >> 18) & 0x7) as u8) >= 128,
{
}

/// A text begins with an ASCII text if its UTF-8 bytes begin with the
/// bytes of that text.
pub proof fn lemma_ascii_prefix(head: Seq<char>, text: Seq<char>)
    requires
        vstd::utf8::is_ascii_chars(head),
        vstd::utf8::encode_utf8(head).is_prefix_of(vstd::utf8::encode_utf8(text)),
    ensures
        head.is_prefix_of(text),
    decreases head.len(),
{
    if head.len() > 0 {
        let eh = vstd::utf8::encode_utf8(head);
        let et = vstd::utf8::encode_utf8(text);
        vstd::utf8::is_ascii_chars_encode_utf8(head);
        assert(eh[0] == head[0] as u8);
        assert(et[0] == eh[0]);
        assert(text.len() > 0);
        let c = text[0] as u32;
        let h = head[0] as u32;
        vstd::utf8::char_is_scalar(text[0]);
        lemma_first_byte(c);
        lemma_first_byte(h);
        let first = vstd::utf8::encode_scalar(c);
        assert(et =~= first + vstd::utf8::encode_utf8(text.drop_first()));
        assert(et[0] == first[0]);
        assert(h <= 0x7F);
        assert(eh[0] < 128);
        assert(c <= 0x7F);
        assert(first =~= seq![c as u8]);
        assert(c as u8 == h as u8);
        assert(c == h);
        vstd::utf8::char_u32_cast(text[0], c);
        vstd::utf8::char_u32_cast(head[0], h);
        assert(text[0] == head[0]);
        let rest_head = head.drop_first();
        let rest_text = text.drop_first();
        assert(eh =~= seq![h as u8] + vstd::utf8::encode_utf8(rest_head));
        assert(vstd::utf8::encode_utf8(rest_head) =~= eh.skip(1));
        assert(vstd::utf8::encode_utf8(rest_text) =~= et.skip(1));
        assert(vstd::utf8::encode_utf8(rest_head).is_prefix_of(
            vstd::utf8::encode_utf8(rest_text),
        )) by {
            assert(eh.skip(1) =~= et.skip(1).subrange(0, eh.len() - 1));
        }
        assert(vstd::utf8::is_ascii_chars(rest_head));
        lemma_ascii_prefix(rest_head, rest_text);
        assert(head =~= text.subrange(0, head.len() as int)) by {
            assert forall|i: int| 0 <= i < head.len() implies head[i] == text[i] by {
                if i > 0 {
                    assert(head[i] == rest_head[i - 1]);
                    assert(text[i] == rest_text[i - 1]);
                    assert(rest_head[i - 1] == rest_text.subrange(0, rest_head.len() as int)[i - 1]);
                }
            }
        }
    } else {
        assert(head =~= text.subrange(0, 0));
    }
}

} // verus!
