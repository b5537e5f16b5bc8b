//! Text helpers: whitespace, terms, and the wildcard clause of a query.

use vstd::prelude::*;

verus! {

/// `String::push` appends exactly one character to the end of the string.
pub assume_specification[ String::push ](s: &mut String, ch: char)
    ensures
        final(s)@ == old(s)@.push(ch),
;

/// The characters with the Unicode `White_Space` property.
pub open spec fn is_whitespace(c: char) -> bool {
    let n = c as u32;
    ||| 0x09 <= n <= 0x0D
    ||| n == 0x20
    ||| n == 0x85
    ||| n == 0xA0
    ||| n == 0x1680
    ||| 0x2000 <= n <= 0x200A
    ||| n == 0x2028
    ||| n == 0x2029
    ||| n == 0x202F
    ||| n == 0x205F
    ||| n == 0x3000
}

/// Whether `c` separates the terms of a query.
pub fn char_is_whitespace(c: char) -> (b: bool)
    ensures
        b == is_whitespace(c),
{
    let n: u32 = c as u32;
    (0x09 <= n && n <= 0x0D) || n == 0x20 || n == 0x85 || n == 0xA0 || n == 0x1680 || (0x2000 <= n
        && n <= 0x200A) || n == 0x2028 || n == 0x2029 || n == 0x202F || n == 0x205F || n == 0x3000
}

/// The whitespace-delimited terms of `s`, in order: its maximal runs of
/// characters that are not whitespace.
pub open spec fn terms(s: Seq<char>) -> Seq<Seq<char>>
    decreases s.len(),
{
    if s.len() == 0 {
        Seq::empty()
    } else if is_whitespace(s.last()) {
        terms(s.drop_last())
    } else if s.len() >= 2 && !is_whitespace(s[s.len() - 2]) {
        let before = terms(s.drop_last());
        before.drop_last().push(before.last().push(s.last()))
    } else {
        terms(s.drop_last()).push(seq![s.last()])
    }
}

/// `parts` written one after another with `sep` between neighbours.
pub open spec fn join(parts: Seq<Seq<char>>, sep: Seq<char>) -> Seq<char>
    decreases parts.len(),
{
    if parts.len() == 0 {
        Seq::empty()
    } else if parts.len() == 1 {
        parts[0]
    } else {
        join(parts.drop_last(), sep) + sep + parts.last()
    }
}

/// The views of a sequence of strings.
pub open spec fn texts(v: Seq<String>) -> Seq<Seq<char>> {
    Seq::new(v.len(), |i: int| v[i]@)
}

/// A string that ends in a character that is no whitespace has at least one
/// term, and its last term is not empty.
pub proof fn lemma_terms_open(s: Seq<char>)
    requires
        s.len() > 0,
        !is_whitespace(s.last()),
    ensures
        terms(s).len() > 0,
        terms(s).last().len() > 0,
        terms(s).last().last() == s.last(),
    decreases s.len(),
{
    if s.len() >= 2 && !is_whitespace(s[s.len() - 2]) {
        lemma_terms_open(s.drop_last());
    }
}

/// Splits `s` into its whitespace-delimited terms.
pub fn split_terms(s: &str) -> (out: Vec<String>)
    ensures
        texts(out@) == terms(s@),
{
    let mut done: Vec<String> = Vec::new();
    let mut current: String = String::new();
    let mut open: bool = false;
    for c in it: s.chars()
        invariant
            it.seq() == s@,
            open <==> (it.index() > 0 && !is_whitespace(s@[it.index() - 1])),
            !open ==> current@.len() == 0,
            !open ==> texts(done@) == terms(s@.take(it.index())),
            open ==> texts(done@).push(current@) == terms(s@.take(it.index())),
    {
        let ghost before = s@.take(it.index());
        let ghost after = s@.take(it.index() + 1);
        proof {
            assert(after.drop_last() == before);
            assert(after.last() == c);
            if open {
                lemma_terms_open(before);
            }
        }
        if char_is_whitespace(c) {
            if open {
                proof {
                    assert(texts(done@.push(current)) == texts(done@).push(current@));
                }
                done.push(current);
                current = String::new();
                open = false;
            }
        } else {
            current.push(c);
            proof {
                if open {
                    let t = terms(before);
                    assert(t.drop_last() == texts(done@));
                } else {
                    assert(current@ == seq![c]);
                }
            }
            open = true;
        }
    }
    proof {
        assert(s@.take(s@.len() as int) == s@);
    }
    if open {
        proof {
            assert(texts(done@.push(current)) == texts(done@).push(current@));
        }
        done.push(current);
    }
    done
}

/// Writes the strings of `parts` one after another with `sep` between
/// neighbours.
pub fn join_terms(parts: &Vec<String>, sep: &str) -> (out: String)
    ensures
        out@ == join(texts(parts@), sep@),
{
    let mut out: String = String::new();
    let mut i: usize = 0;
    while i < parts.len()
        invariant
            i <= parts.len(),
            out@ == join(texts(parts@).take(i as int), sep@),
        decreases parts.len() - i,
    {
        proof {
            let next = texts(parts@).take(i + 1);
            assert(next.drop_last() == texts(parts@).take(i as int));
            assert(next.last() == parts@[i as int]@);
        }
        if i > 0 {
            out.append(sep);
        }
        out.append(parts[i].as_str());
        i = i + 1;
    }
    proof {
        assert(texts(parts@).take(parts@.len() as int) == texts(parts@));
    }
    out
}

/// A term between two asterisks.
pub open spec fn wrap(term: Seq<char>) -> Seq<char> {
    seq!['*'] + term + seq!['*']
}

/// The wildcard clause of the query `q`: every term wrapped in asterisks, the
/// wrapped terms separated by single spaces. A query without terms gives `**`.
pub open spec fn wildcard_text(q: Seq<char>) -> Seq<char> {
    seq!['*'] + join(terms(q), seq!['*', ' ', '*']) + seq!['*']
}

/// Builds the wildcard clause of `query`.
pub fn wildcard_clause(query: &str) -> (out: String)
    ensures
        out@ == wildcard_text(query@),
{
    let parts = split_terms(query);
    let inner = join_terms(&parts, "* *");
    let mut out: String = String::from_str("*");
    out.append(inner.as_str());
    out.append("*");
    proof {
        reveal_strlit("*");
        reveal_strlit("* *");
        assert("*"@ == seq!['*']);
        assert("* *"@ == seq!['*', ' ', '*']);
    }
    out
}

/// Whether two strings hold the same characters.
pub fn str_eq(a: &str, b: &str) -> (same: bool)
    ensures
        same == (a@ == b@),
{
    let x = a.as_bytes();
    let y = b.as_bytes();
    proof {
        vstd::utf8::encode_utf8_decode_utf8(a@);
        vstd::utf8::encode_utf8_decode_utf8(b@);
    }
    if x.len() != y.len() {
        return false;
    }
    let mut i: usize = 0;
    while i < x.len()
        invariant
            i <= x.len(),
            x.len() == y.len(),
            x@ == vstd::utf8::encode_utf8(a@),
            y@ == vstd::utf8::encode_utf8(b@),
            forall|j: int| 0 <= j < i ==> x@[j] == y@[j],
        decreases x.len() - i,
    {
        if x[i] != y[i] {
            return false;
        }
        i = i + 1;
    }
    proof {
        assert(x@ =~= y@);
    }
    true
}

/// Every term is a non-empty run of characters that are not whitespace.
pub proof fn lemma_terms_are_words(s: Seq<char>)
    ensures
        forall|i: int| 0 <= i < terms(s).len() ==> (#[trigger] terms(s)[i]).len() > 0,
        forall|i: int, j: int|
            0 <= i < terms(s).len() && 0 <= j < terms(s)[i].len() ==> !is_whitespace(
                #[trigger] terms(s)[i][j],
            ),
    decreases s.len(),
{
    if s.len() > 0 {
        lemma_terms_are_words(s.drop_last());
        if !is_whitespace(s.last()) && s.len() >= 2 && !is_whitespace(s[s.len() - 2]) {
            lemma_terms_open(s.drop_last());
        }
    }
}

/// Wrapping each part in asterisks and joining with one space is the same as
/// joining with `* *` and putting one asterisk at each end.
pub proof fn lemma_join_wrapped(parts: Seq<Seq<char>>)
    requires
        parts.len() >= 1,
    ensures
        seq!['*'] + join(parts, seq!['*', ' ', '*']) + seq!['*'] == join(
            parts.map_values(|t: Seq<char>| wrap(t)),
            seq![' '],
        ),
    decreases parts.len(),
{
    let wrapped = parts.map_values(|t: Seq<char>| wrap(t));
    if parts.len() >= 2 {
        lemma_join_wrapped(parts.drop_last());
        assert(wrapped.drop_last() == parts.drop_last().map_values(|t: Seq<char>| wrap(t)));
        assert(seq!['*', ' ', '*'] == seq!['*'] + seq![' '] + seq!['*']);
        assert(seq!['*'] + join(parts, seq!['*', ' ', '*']) + seq!['*'] == (seq!['*'] + join(
            parts.drop_last(),
            seq!['*', ' ', '*'],
        ) + seq!['*']) + seq![' '] + wrap(parts.last()));
    }
}

/// Whether `w` is a word: not empty and free of whitespace.
pub open spec fn is_word(w: Seq<char>) -> bool {
    w.len() > 0 && forall|i: int| 0 <= i < w.len() ==> !is_whitespace(#[trigger] w[i])
}

/// A word is its own single term.
pub proof fn lemma_terms_of_word(w: Seq<char>)
    requires
        is_word(w),
    ensures
        terms(w) == seq![w],
    decreases w.len(),
{
    if w.len() >= 2 {
        assert(is_word(w.drop_last())) by {
            assert forall|i: int| 0 <= i < w.drop_last().len() implies !is_whitespace(
                #[trigger] w.drop_last()[i],
            ) by {
                assert(w.drop_last()[i] == w[i]);
            }
        }
        lemma_terms_of_word(w.drop_last());
        assert(!is_whitespace(w[w.len() - 2]) && !is_whitespace(w[w.len() - 1]));
        assert(w.drop_last().push(w.last()) =~= w);
        assert(seq![w.drop_last()].drop_last().push(w) =~= seq![w]);
    } else {
        assert(!is_whitespace(w[0]));
        assert(seq![w.last()] =~= w);
        assert(terms(w.drop_last()) =~= Seq::empty());
    }
}

/// The terms of two texts with one whitespace character between them are the
/// terms of the first followed by the terms of the second.
pub proof fn lemma_terms_across_whitespace(a: Seq<char>, c: char, b: Seq<char>)
    requires
        is_whitespace(c),
    ensures
        terms(a + seq![c] + b) == terms(a) + terms(b),
    decreases b.len(),
{
    let s = a + seq![c] + b;
    if b.len() == 0 {
        assert(s.drop_last() =~= a);
        assert(terms(a) + terms(b) =~= terms(a));
    } else {
        let shorter = b.drop_last();
        assert(s.drop_last() =~= a + seq![c] + shorter);
        assert(s.last() == b.last());
        lemma_terms_across_whitespace(a, c, shorter);
        if is_whitespace(b.last()) {
        } else if b.len() >= 2 && !is_whitespace(b[b.len() - 2]) {
            assert(s[s.len() - 2] == b[b.len() - 2]);
            lemma_terms_open(shorter);
            let t = terms(shorter);
            assert((terms(a) + t).drop_last().push((terms(a) + t).last().push(b.last()))
                =~= terms(a) + t.drop_last().push(t.last().push(b.last())));
        } else {
            if b.len() >= 2 {
                assert(s[s.len() - 2] == b[b.len() - 2]);
            } else {
                assert(s[s.len() - 2] == c);
            }
            assert((terms(a) + terms(shorter)).push(seq![b.last()]) =~= terms(a) + terms(
                shorter,
            ).push(seq![b.last()]));
        }
    }
}

/// Words joined by single spaces have exactly those words as their terms.
pub proof fn lemma_terms_of_joined_words(words: Seq<Seq<char>>)
    requires
        forall|i: int| 0 <= i < words.len() ==> is_word(#[trigger] words[i]),
    ensures
        terms(join(words, seq![' '])) == words,
    decreases words.len(),
{
    if words.len() == 0 {
        assert(words =~= Seq::empty());
    } else if words.len() == 1 {
        lemma_terms_of_word(words[0]);
        assert(words =~= seq![words[0]]);
    } else {
        let init = words.drop_last();
        assert forall|i: int| 0 <= i < init.len() implies is_word(#[trigger] init[i]) by {
            assert(init[i] == words[i]);
        }
        lemma_terms_of_joined_words(init);
        lemma_terms_of_word(words.last());
        lemma_terms_across_whitespace(join(init, seq![' ']), ' ', words.last());
        assert(init + seq![words.last()] =~= words);
    }
}

/// For a query with N >= 1 terms the wildcard clause is exactly the N terms,
/// each wrapped in asterisks, joined by single spaces: split at whitespace
/// again, it gives the N wrapped terms and nothing else.
pub proof fn lemma_wildcard_tokens(q: Seq<char>)
    requires
        terms(q).len() >= 1,
    ensures
        wildcard_text(q) == join(terms(q).map_values(|t: Seq<char>| wrap(t)), seq![' ']),
        terms(wildcard_text(q)) == terms(q).map_values(|t: Seq<char>| wrap(t)),
        terms(wildcard_text(q)).len() == terms(q).len(),
{
    lemma_join_wrapped(terms(q));
    lemma_terms_are_words(q);
    let wrapped = terms(q).map_values(|t: Seq<char>| wrap(t));
    assert forall|i: int| 0 <= i < wrapped.len() implies is_word(#[trigger] wrapped[i]) by {
        let t = terms(q)[i];
        assert(wrapped[i] == wrap(t));
        assert forall|j: int| 0 <= j < wrap(t).len() implies !is_whitespace(
            #[trigger] wrap(t)[j],
        ) by {
            if 0 < j < wrap(t).len() - 1 {
                assert(wrap(t)[j] == t[j - 1]);
                assert(!is_whitespace(terms(q)[i][j - 1]));
            }
        }
    }
    lemma_terms_of_joined_words(wrapped);
}

/// For a query without terms the wildcard clause is two asterisks.
pub proof fn lemma_wildcard_without_terms(q: Seq<char>)
    requires
        terms(q).len() == 0,
    ensures
        wildcard_text(q) == seq!['*', '*'],
{
}

/// The characters of `s`, one by one.
pub fn to_chars(s: &str) -> (chars: Vec<char>)
    ensures
        chars@ == s@,
{
    let mut chars: Vec<char> = Vec::new();
    for c in it: s.chars()
        invariant
            it.seq() == s@,
            chars@ == s@.take(it.index()),
    {
        chars.push(c);
    }
    proof {
        assert(s@.take(s@.len() as int) == s@);
    }
    chars
}

/// Whether `c` is one of the decimal digits `0` to `9`.
pub open spec fn is_digit(c: char) -> bool {
    '0' <= c <= '9'
}

/// The number that the decimal digit `c` stands for.
pub open spec fn digit_value(c: char) -> nat {
    (c as u32 - '0' as u32) as nat
}

/// The number that a sequence of decimal digits stands for.
pub open spec fn decimal_value(digits: Seq<char>) -> nat
    decreases digits.len(),
{
    if digits.len() == 0 {
        0
    } else {
        decimal_value(digits.drop_last()) * 10 + digit_value(digits.last())
    }
}

/// Whether every character of `s` is a decimal digit.
pub open spec fn all_digits(s: Seq<char>) -> bool {
    forall|i: int| 0 <= i < s.len() ==> is_digit(#[trigger] s[i])
}

/// `s` without a leading plus sign.
pub open spec fn unsigned_part(s: Seq<char>) -> Seq<char> {
    if s.len() > 0 && s[0] == '+' {
        s.drop_first()
    } else {
        s
    }
}

/// The number that `s` is the decimal notation of: one or more digits, which
/// a plus sign may precede, with a value that 32 bits hold. `None` for every
/// other text.
pub open spec fn parse_u32_text(s: Seq<char>) -> Option<u32> {
    let digits = unsigned_part(s);
    if digits.len() > 0 && all_digits(digits) && decimal_value(digits) <= u32::MAX {
        Some(decimal_value(digits) as u32)
    } else {
        None
    }
}

/// A longer number is not smaller than its beginning.
pub proof fn lemma_decimal_value_grows(digits: Seq<char>, n: int)
    requires
        0 <= n <= digits.len(),
        all_digits(digits),
    ensures
        decimal_value(digits.take(n)) <= decimal_value(digits),
    decreases digits.len() - n,
{
    if n < digits.len() {
        let longer = digits.take(n + 1);
        assert(longer.drop_last() == digits.take(n));
        assert(is_digit(digits[n]));
        lemma_decimal_value_grows(digits, n + 1);
    } else {
        assert(digits.take(n) == digits);
    }
}

/// Reads `s` as the decimal notation of an unsigned 32-bit number.
pub fn parse_u32(s: &str) -> (number: Option<u32>)
    ensures
        number == parse_u32_text(s@),
{
    let chars = to_chars(s);
    let start: usize = if chars.len() > 0 && chars[0] == '+' {
        1
    } else {
        0
    };
    let ghost digits = unsigned_part(s@);
    proof {
        assert(digits == s@.subrange(start as int, s@.len() as int));
    }
    if start == chars.len() {
        return None;
    }
    let mut value: u64 = 0;
    let mut i: usize = start;
    while i < chars.len()
        invariant
            start <= i <= chars.len(),
            chars@ == s@,
            digits == unsigned_part(s@),
            digits == s@.subrange(start as int, s@.len() as int),
            all_digits(digits.take(i - start)),
            value == decimal_value(digits.take(i - start)),
            value <= u32::MAX,
        decreases chars.len() - i,
    {
        let c = chars[i];
        proof {
            assert(digits[i - start] == c);
        }
        if !('0' <= c && c <= '9') {
            proof {
                assert(!is_digit(digits[i - start]));
            }
            return None;
        }
        let ghost longer = digits.take(i - start + 1);
        proof {
            assert(longer.drop_last() == digits.take(i - start));
            assert(longer.last() == c);
        }
        let digit: u64 = (c as u32 - '0' as u32) as u64;
        value = value * 10 + digit;
        if value > 0xffff_ffff {
            proof {
                if all_digits(digits) {
                    lemma_decimal_value_grows(digits, i - start + 1);
                }
            }
            return None;
        }
        i = i + 1;
    }
    proof {
        assert(digits.take(digits.len() as int) == digits);
    }
    Some(value as u32)
}

} // verus!
