//! Character classes and text operations, each with its mathematical model.
use vstd::prelude::*;

verus! {

/// `String::push` appends one character to the end of the string and leaves the rest as it was.
pub assume_specification[ String::push ](text: &mut String, c: char)
    ensures
        final(text)@ == old(text)@.push(c),
;

/// The contents of a list of strings.
pub open spec fn texts(list: Seq<String>) -> Seq<Seq<char>> {
    list.map_values(|text: String| text@)
}

/// The contents of a list of string slices.
pub open spec fn slices(list: Seq<&'static str>) -> Seq<Seq<char>> {
    list.map_values(|text: &'static str| text@)
}

// ---------------------------------------------------------------------------
// Character classes
// ---------------------------------------------------------------------------

/// Whether `c` has the Unicode `White_Space` property.
pub open spec fn is_white_space(c: char) -> bool {
    ||| '\u{9}' <= c <= '\u{d}'
    ||| c == ' '
    ||| c == '\u{85}'
    ||| c == '\u{a0}'
    ||| c == '\u{1680}'
    ||| '\u{2000}' <= c <= '\u{200a}'
    ||| c == '\u{2028}'
    ||| c == '\u{2029}'
    ||| c == '\u{202f}'
    ||| c == '\u{205f}'
    ||| c == '\u{3000}'
}

/// Whether `c` is an ASCII decimal digit.
pub open spec fn is_digit(c: char) -> bool {
    '0' <= c <= '9'
}

/// Whether `c` is a hexadecimal digit in lower case.
pub open spec fn is_lower_hex(c: char) -> bool {
    is_digit(c) || 'a' <= c <= 'f'
}

/// Whether `c` is a hexadecimal digit in either case.
pub open spec fn is_hex(c: char) -> bool {
    is_lower_hex(c) || 'A' <= c <= 'F'
}

/// The ASCII lower case of `c`: only the letters from `A` to `Z` change.
pub open spec fn lower(c: char) -> char {
    if 'A' <= c <= 'Z' {
        (c as int + 32) as char
    } else {
        c
    }
}

/// The digit that stands for `value`, in lower case hexadecimal.
pub open spec fn hex_char(value: int) -> char
    recommends
        0 <= value < 16,
{
    if value < 10 {
        ('0' as int + value) as char
    } else {
        ('a' as int + value - 10) as char
    }
}

/// Whether `c` is white space.
pub fn white_space(c: char) -> (r: bool)
    ensures
        r == is_white_space(c),
{
    ('\u{9}' <= c && c <= '\u{d}') || c == ' ' || c == '\u{85}' || c == '\u{a0}' || c == '\u{1680}'
        || ('\u{2000}' <= c && c <= '\u{200a}') || c == '\u{2028}' || c == '\u{2029}' || c
        == '\u{202f}' || c == '\u{205f}' || c == '\u{3000}'
}

/// Whether `c` is a hexadecimal digit in either case.
pub fn hex_digit_char(c: char) -> (r: bool)
    ensures
        r == is_hex(c),
{
    ('0' <= c && c <= '9') || ('a' <= c && c <= 'f') || ('A' <= c && c <= 'F')
}

/// The ASCII lower case of one character.
pub fn lower_char(c: char) -> (r: char)
    ensures
        r == lower(c),
{
    if 'A' <= c && c <= 'Z' {
        (c as u8 + 32) as char
    } else {
        c
    }
}

/// The lower case hexadecimal digit of a nibble.
pub fn hex_digit(value: u8) -> (r: char)
    requires
        value <= 15,
    ensures
        r == hex_char(value as int),
        is_lower_hex(r),
{
    if value <= 9 {
        ('0' as u8 + value) as char
    } else {
        ('a' as u8 + (value - 10)) as char
    }
}

// ---------------------------------------------------------------------------
// Strings and their characters
// ---------------------------------------------------------------------------

/// The characters of a text.
pub fn chars_of(text: &str) -> (r: Vec<char>)
    ensures
        r@ == text@,
{
    let mut out: Vec<char> = Vec::new();
    for c in it: text.chars()
        invariant
            it.seq() == text@,
            out@ == text@.take(it.index() as int),
    {
        out.push(c);
    }
    out
}

/// The string made of the characters from `from` up to `to`.
pub fn string_of(chars: &Vec<char>, from: usize, to: usize) -> (r: String)
    requires
        from <= to <= chars@.len(),
    ensures
        r@ == chars@.subrange(from as int, to as int),
{
    let mut out = String::new();
    let mut i: usize = from;
    while i < to
        invariant
            from <= i <= to <= chars@.len(),
            out@ == chars@.subrange(from as int, i as int),
        decreases to - i,
    {
        out.push(chars[i]);
        i = i + 1;
        assert(chars@.subrange(from as int, i as int) =~= chars@.subrange(
            from as int,
            i as int - 1,
        ).push(chars@[i as int - 1]));
    }
    out
}

/// Whether two texts hold the same characters.
pub fn same_text(a: &str, b: &str) -> (r: bool)
    ensures
        r == (a@ == b@),
{
    let x = a.as_bytes();
    let y = b.as_bytes();
    proof {
        vstd::utf8::encode_utf8_decode_utf8(a@);
        vstd::utf8::encode_utf8_decode_utf8(b@);
    }
    if x.len() != y.len() {
        return false;
    }
    for i in 0..x.len()
        invariant
            x@ == vstd::utf8::encode_utf8(a@),
            y@ == vstd::utf8::encode_utf8(b@),
            x@.len() == y@.len(),
            forall|j: int| 0 <= j < i ==> x@[j] == y@[j],
    {
        if x[i] != y[i] {
            return false;
        }
    }
    assert(x@ =~= y@);
    true
}

// ---------------------------------------------------------------------------
// Lower case and trimming
// ---------------------------------------------------------------------------

/// A text with every character in ASCII lower case.
pub open spec fn lowered(s: Seq<char>) -> Seq<char> {
    s.map_values(|c: char| lower(c))
}

/// A text without the white space at its start.
pub open spec fn trim_start(s: Seq<char>) -> Seq<char>
    decreases s.len(),
{
    if s.len() > 0 && is_white_space(s[0]) {
        trim_start(s.drop_first())
    } else {
        s
    }
}

/// A text without the white space at its end.
pub open spec fn trim_end(s: Seq<char>) -> Seq<char>
    decreases s.len(),
{
    if s.len() > 0 && is_white_space(s.last()) {
        trim_end(s.drop_last())
    } else {
        s
    }
}

/// A text without the white space around it.
pub open spec fn trimmed(s: Seq<char>) -> Seq<char> {
    trim_end(trim_start(s))
}

/// Whether a text is empty or white space alone.
pub open spec fn is_blank(s: Seq<char>) -> bool {
    forall|i: int| 0 <= i < s.len() ==> is_white_space(#[trigger] s[i])
}

/// The ASCII lower case of a text.
pub fn to_ascii_lowercase(text: &str) -> (r: String)
    ensures
        r@ == lowered(text@),
{
    let chars = chars_of(text);
    let mut out = String::new();
    for i in 0..chars.len()
        invariant
            chars@ == text@,
            out@ == lowered(text@.take(i as int)),
    {
        out.push(lower_char(chars[i]));
        assert(lowered(text@.take(i as int + 1)) =~= lowered(text@.take(i as int)).push(
            lower(text@[i as int]),
        ));
    }
    assert(text@.take(text@.len() as int) =~= text@);
    out
}

/// The text without leading and trailing white space.
pub fn trim(text: &str) -> (r: String)
    ensures
        r@ == trimmed(text@),
{
    let chars = chars_of(text);
    let mut from: usize = 0;
    assert(chars@.skip(0) =~= text@);
    while from < chars.len() && white_space(chars[from])
        invariant
            from <= chars@.len(),
            trim_start(chars@.skip(from as int)) == trim_start(text@),
        decreases chars@.len() - from,
    {
        assert(chars@.skip(from as int).drop_first() =~= chars@.skip(from as int + 1));
        from = from + 1;
    }
    let ghost start = chars@.skip(from as int);
    let mut to: usize = chars.len();
    assert(chars@.subrange(from as int, to as int) =~= start);
    while from < to && white_space(chars[to - 1])
        invariant
            from <= to <= chars@.len(),
            trim_end(chars@.subrange(from as int, to as int)) == trim_end(start),
        decreases to,
    {
        assert(chars@.subrange(from as int, to as int).drop_last() =~= chars@.subrange(
            from as int,
            to as int - 1,
        ));
        to = to - 1;
    }
    string_of(&chars, from, to)
}

/// Trimming leaves nothing exactly where a text is blank.
pub proof fn lemma_trimmed_empty(s: Seq<char>)
    ensures
        (trimmed(s).len() == 0) == is_blank(s),
    decreases s.len(),
{
    if s.len() > 0 && is_white_space(s[0]) {
        lemma_trimmed_empty(s.drop_first());
        if is_blank(s.drop_first()) {
            assert forall|i: int| 0 <= i < s.len() implies is_white_space(#[trigger] s[i]) by {
                if i > 0 {
                    assert(s.drop_first()[i - 1] == s[i]);
                }
            }
        }
        if is_blank(s) {
            assert forall|i: int| 0 <= i < s.drop_first().len() implies is_white_space(
                #[trigger] s.drop_first()[i],
            ) by {
                assert(s.drop_first()[i] == s[i + 1]);
            }
        }
    } else if s.len() > 0 {
        lemma_trim_end_keeps_start(s);
    }
}

proof fn lemma_trim_end_keeps_start(s: Seq<char>)
    requires
        s.len() > 0,
        !is_white_space(s[0]),
    ensures
        trim_end(s).len() > 0,
    decreases s.len(),
{
    if s.len() > 1 && is_white_space(s.last()) {
        lemma_trim_end_keeps_start(s.drop_last());
    }
}

// ---------------------------------------------------------------------------
// Words
// ---------------------------------------------------------------------------

/// The length of the word at the start of a text.
pub open spec fn word_len(s: Seq<char>) -> nat
    decreases s.len(),
{
    if s.len() == 0 || is_white_space(s[0]) {
        0
    } else {
        1 + word_len(s.drop_first())
    }
}

/// The words of a text: its longest pieces free of white space, in order.
pub open spec fn words(s: Seq<char>) -> Seq<Seq<char>>
    decreases s.len(),
{
    if s.len() == 0 {
        Seq::empty()
    } else if is_white_space(s[0]) {
        words(s.drop_first())
    } else {
        proof {
            lemma_word_len(s);
        }
        seq![s.take(word_len(s) as int)] + words(s.skip(word_len(s) as int))
    }
}

/// The texts of a list, in order, with `sep` between neighbours.
pub open spec fn joined(list: Seq<Seq<char>>, sep: Seq<char>) -> Seq<char>
    decreases list.len(),
{
    if list.len() == 0 {
        Seq::empty()
    } else if list.len() == 1 {
        list[0]
    } else {
        joined(list.drop_last(), sep) + sep + list.last()
    }
}

pub proof fn lemma_word_len(s: Seq<char>)
    ensures
        word_len(s) <= s.len(),
        s.len() > 0 && !is_white_space(s[0]) ==> word_len(s) > 0,
        forall|i: int| 0 <= i < word_len(s) ==> !is_white_space(#[trigger] s[i]),
        word_len(s) < s.len() ==> is_white_space(s[word_len(s) as int]),
    decreases s.len(),
{
    if s.len() > 0 && !is_white_space(s[0]) {
        let t = s.drop_first();
        lemma_word_len(t);
        assert forall|i: int| 0 <= i < word_len(s) implies !is_white_space(#[trigger] s[i]) by {
            if i > 0 {
                assert(t[i - 1] == s[i]);
            }
        }
    }
}

/// Whether a text is one word.
pub open spec fn is_word(s: Seq<char>) -> bool {
    &&& s.len() > 0
    &&& forall|i: int| 0 <= i < s.len() ==> !is_white_space(#[trigger] s[i])
}

/// What a text is split into are words.
pub proof fn lemma_words_are_words(s: Seq<char>)
    ensures
        forall|i: int| 0 <= i < words(s).len() ==> is_word(#[trigger] words(s)[i]),
    decreases s.len(),
{
    if s.len() == 0 {
        assert(words(s).len() == 0);
    } else if is_white_space(s[0]) {
        lemma_words_are_words(s.drop_first());
        assert(words(s) == words(s.drop_first()));
    } else {
        lemma_word_len(s);
        let n = word_len(s) as int;
        let rest = words(s.skip(n));
        lemma_words_are_words(s.skip(n));
        assert forall|i: int| 0 <= i < words(s).len() implies is_word(#[trigger] words(s)[i]) by {
            if i > 0 {
                assert(words(s)[i] == rest[i - 1]);
            }
        }
    }
}

proof fn lemma_word_len_before_space(a: Seq<char>, b: Seq<char>)
    requires
        b.len() == 0 || is_white_space(b[0]),
    ensures
        word_len(a + b) == word_len(a),
    decreases a.len(),
{
    if a.len() == 0 {
        assert(a + b =~= b);
    } else if !is_white_space(a[0]) {
        assert((a + b).drop_first() =~= a.drop_first() + b);
        lemma_word_len_before_space(a.drop_first(), b);
    }
}

/// White space parts the words before it from those behind it.
pub proof fn lemma_words_concat(a: Seq<char>, b: Seq<char>)
    requires
        b.len() == 0 || is_white_space(b[0]),
    ensures
        words(a + b) == words(a) + words(b),
    decreases a.len(),
{
    if a.len() == 0 {
        assert(a + b =~= b);
        assert(words(a) + words(b) =~= words(b));
    } else if is_white_space(a[0]) {
        assert((a + b).drop_first() =~= a.drop_first() + b);
        lemma_words_concat(a.drop_first(), b);
    } else {
        lemma_word_len(a);
        lemma_word_len_before_space(a, b);
        let n = word_len(a) as int;
        assert((a + b).take(n) =~= a.take(n));
        assert((a + b).skip(n) =~= a.skip(n) + b);
        lemma_words_concat(a.skip(n), b);
        assert(words(a + b) =~= words(a) + words(b));
    }
}

/// A word is all that it is split into.
pub proof fn lemma_words_of_word(w: Seq<char>)
    requires
        is_word(w),
    ensures
        words(w) == seq![w],
{
    lemma_word_len(w);
    assert(w.take(w.len() as int) =~= w);
    assert(words(w.skip(w.len() as int)) =~= Seq::<Seq<char>>::empty());
    assert(words(w) =~= seq![w]);
}

/// Words with single spaces between them are split into the same words again.
pub proof fn lemma_words_joined(list: Seq<Seq<char>>)
    requires
        forall|i: int| 0 <= i < list.len() ==> is_word(#[trigger] list[i]),
    ensures
        words(joined(list, " "@)) == list,
    decreases list.len(),
{
    reveal_strlit(" ");
    if list.len() == 0 {
        assert(list =~= Seq::<Seq<char>>::empty());
    } else if list.len() == 1 {
        lemma_words_of_word(list[0]);
        assert(list =~= seq![list[0]]);
    } else {
        let init = list.drop_last();
        assert forall|i: int| 0 <= i < init.len() implies is_word(#[trigger] init[i]) by {
            assert(init[i] == list[i]);
        }
        lemma_words_joined(init);
        let tail = " "@ + list.last();
        assert(joined(list, " "@) =~= joined(init, " "@) + tail);
        lemma_words_concat(joined(init, " "@), tail);
        assert(tail.drop_first() =~= list.last());
        lemma_words_of_word(list.last());
        assert(list =~= init + seq![list.last()]);
    }
}

/// Words with single spaces between them neither begin nor end with white space.
pub proof fn lemma_joined_ends(list: Seq<Seq<char>>)
    requires
        list.len() > 0,
        forall|i: int| 0 <= i < list.len() ==> is_word(#[trigger] list[i]),
    ensures
        joined(list, " "@).len() > 0,
        !is_white_space(joined(list, " "@)[0]),
        !is_white_space(joined(list, " "@).last()),
        trimmed(joined(list, " "@)) == joined(list, " "@),
    decreases list.len(),
{
    if list.len() > 1 {
        let init = list.drop_last();
        assert forall|i: int| 0 <= i < init.len() implies is_word(#[trigger] init[i]) by {
            assert(init[i] == list[i]);
        }
        lemma_joined_ends(init);
        assert(is_word(list.last()));
    } else {
        assert(is_word(list[0]));
    }
}

/// The words of a text.
pub fn split_whitespace(text: &str) -> (r: Vec<String>)
    ensures
        texts(r@) == words(text@),
{
    let chars = chars_of(text);
    let mut out: Vec<String> = Vec::new();
    let mut i: usize = 0;
    assert(chars@.skip(0) =~= text@);
    assert(texts(out@) + words(text@) =~= words(text@));
    while i < chars.len()
        invariant
            i <= chars@.len(),
            words(text@) == texts(out@) + words(chars@.skip(i as int)),
        decreases chars@.len() - i,
    {
        let ghost rest = chars@.skip(i as int);
        if white_space(chars[i]) {
            assert(rest.drop_first() =~= chars@.skip(i as int + 1));
            i = i + 1;
        } else {
            let from: usize = i;
            proof {
                lemma_word_len(rest);
            }
            while i < chars.len() && !white_space(chars[i])
                invariant
                    from <= i <= chars@.len(),
                    word_len(rest) == i - from + word_len(chars@.skip(i as int)),
                decreases chars@.len() - i,
            {
                assert(chars@.skip(i as int).drop_first() =~= chars@.skip(i as int + 1));
                i = i + 1;
            }
            assert(word_len(rest) == i - from);
            let ghost before = texts(out@);
            out.push(string_of(&chars, from, i));
            assert(rest.take(i - from) =~= chars@.subrange(from as int, i as int));
            assert(rest.skip(i - from) =~= chars@.skip(i as int));
            assert(texts(out@) =~= before.push(rest.take(i - from)));
            assert(texts(out@) + words(chars@.skip(i as int)) =~= before + (seq![
                rest.take(i - from),
            ] + words(rest.skip(i - from))));
        }
    }
    assert(texts(out@) + words(chars@.skip(i as int)) =~= texts(out@));
    out
}

/// The texts of a list from the index `from` on, with `sep` between neighbours.
pub fn join(list: &Vec<String>, from: usize, sep: &str) -> (r: String)
    requires
        from <= list@.len(),
    ensures
        r@ == joined(texts(list@).skip(from as int), sep@),
{
    let ghost all = texts(list@).skip(from as int);
    let mut out = String::new();
    let mut i: usize = from;
    while i < list.len()
        invariant
            from <= i <= list@.len(),
            all == texts(list@).skip(from as int),
            out@ == joined(all.take(i - from), sep@),
        decreases list@.len() - i,
    {
        if i > from {
            out.append(sep);
        }
        out.append(list[i].as_str());
        assert(all.take(i - from + 1).drop_last() =~= all.take(i - from));
        assert(all[i - from] == list@[i as int]@);
        i = i + 1;
    }
    assert(all.take(all.len() as int) =~= all);
    out
}

// ---------------------------------------------------------------------------
// Decimal numbers
// ---------------------------------------------------------------------------

/// The decimal digits of a number.
pub open spec fn decimal(n: nat) -> Seq<char>
    decreases n,
{
    if n < 10 {
        seq![hex_char(n as int)]
    } else {
        decimal(n / 10).push(hex_char((n % 10) as int))
    }
}

/// The decimal form of an integer, with a sign where it is negative.
pub open spec fn signed_decimal(n: int) -> Seq<char> {
    if n < 0 {
        seq!['-'] + decimal((-n) as nat)
    } else {
        decimal(n as nat)
    }
}

/// The number that a row of digits stands for.
pub open spec fn digits_value(s: Seq<char>) -> nat
    decreases s.len(),
{
    if s.len() == 0 {
        0
    } else {
        digits_value(s.drop_last()) * 10 + (s.last() as int - '0' as int) as nat
    }
}

/// A text without the plus sign that may start it.
pub open spec fn without_plus(s: Seq<char>) -> Seq<char> {
    if s.len() > 0 && s[0] == '+' {
        s.drop_first()
    } else {
        s
    }
}

/// The number that a text denotes: digits with an optional plus sign before them, in the range
/// of `usize`.
pub open spec fn usize_value(s: Seq<char>) -> Option<nat> {
    let digits = without_plus(s);
    if digits.len() > 0 && (forall|i: int| 0 <= i < digits.len() ==> is_digit(#[trigger] digits[i]))
        && digits_value(digits) <= usize::MAX {
        Some(digits_value(digits))
    } else {
        None
    }
}

/// The decimal form of a number.
pub fn decimal_u64(n: u64) -> (r: String)
    ensures
        r@ == decimal(n as nat),
    decreases n,
{
    let digit = hex_digit((n % 10) as u8);
    let mut out = if n < 10 {
        String::new()
    } else {
        decimal_u64(n / 10)
    };
    out.push(digit);
    assert(n < 10 ==> out@ =~= decimal(n as nat));
    out
}

/// The decimal form of a number.
pub fn decimal_usize(n: usize) -> (r: String)
    ensures
        r@ == decimal(n as nat),
{
    decimal_u64(n as u64)
}

/// The decimal form of an integer, with a sign where it is negative.
pub fn decimal_i64(n: i64) -> (r: String)
    ensures
        r@ == signed_decimal(n as int),
{
    if n < 0 {
        let magnitude: u64 = (-(n + 1)) as u64 + 1;
        let mut out = String::new();
        out.push('-');
        out.append(decimal_u64(magnitude).as_str());
        assert(out@ =~= signed_decimal(n as int));
        out
    } else {
        decimal_u64(n as u64)
    }
}

/// The number that a text denotes, if it denotes one.
pub fn parse_usize(text: &str) -> (r: Option<usize>)
    ensures
        match r {
            Some(n) => usize_value(text@) == Some(n as nat),
            None => usize_value(text@) is None,
        },
{
    let chars = chars_of(text);
    let from: usize = if chars.len() > 0 && chars[0] == '+' {
        1
    } else {
        0
    };
    let ghost digits = chars@.skip(from as int);
    assert(digits =~= without_plus(text@));
    if from == chars.len() {
        return None;
    }
    let mut value: usize = 0;
    let mut i: usize = from;
    let mut overflow: bool = false;
    while i < chars.len()
        invariant
            from <= i <= chars@.len(),
            chars@ == text@,
            digits == chars@.skip(from as int),
            digits == without_plus(text@),
            forall|j: int| 0 <= j < i - from ==> is_digit(#[trigger] digits[j]),
            overflow ==> digits_value(digits.take(i - from)) > usize::MAX,
            !overflow ==> value == digits_value(digits.take(i - from)),
        decreases chars@.len() - i,
    {
        let c = chars[i];
        assert(digits[i - from] == c);
        if !('0' <= c && c <= '9') {
            assert(!is_digit(digits[i - from]));
            return None;
        }
        let digit: usize = (c as u8 - '0' as u8) as usize;
        proof {
            assert(digits.take(i - from + 1).drop_last() =~= digits.take(i - from));
            assert(digits.take(i - from + 1).last() == c);
        }
        if !overflow {
            if value <= (usize::MAX - digit) / 10 {
                value = value * 10 + digit;
            } else {
                overflow = true;
            }
        }
        i = i + 1;
    }
    assert(digits.take(digits.len() as int) =~= digits);
    if overflow {
        None
    } else {
        Some(value)
    }
}

// ---------------------------------------------------------------------------
// Concatenation and hexadecimal encoding
// ---------------------------------------------------------------------------

/// Two texts, one behind the other.
pub fn concatenate(a: &str, b: &str) -> (r: String)
    ensures
        r@ == a@ + b@,
{
    let mut out = a.to_owned();
    out.append(b);
    out
}

/// The lower case hexadecimal form of some bytes, two digits to a byte.
pub open spec fn hex_encoded(bytes: Seq<u8>) -> Seq<char> {
    Seq::new(
        2 * bytes.len(),
        |i: int|
            hex_char(
                if i % 2 == 0 {
                    bytes[i / 2] as int / 16
                } else {
                    bytes[i / 2] as int % 16
                },
            ),
    )
}

/// The lower case hexadecimal form of the UTF-8 bytes of a text.
pub fn hex_encode(text: &str) -> (r: String)
    ensures
        r@ == hex_encoded(vstd::utf8::encode_utf8(text@)),
{
    let bytes = text.as_bytes();
    let mut out = String::new();
    for i in 0..bytes.len()
        invariant
            bytes@ == vstd::utf8::encode_utf8(text@),
            out@ == hex_encoded(bytes@.take(i as int)),
    {
        let byte: u8 = bytes[i];
        assert(byte >> 4 == byte / 16 && byte & 0x0f == byte % 16) by (bit_vector);
        out.push(hex_digit(byte >> 4));
        out.push(hex_digit(byte & 0x0f));
        assert(out@ =~= hex_encoded(bytes@.take(i as int + 1)));
    }
    assert(bytes@.take(bytes@.len() as int) =~= bytes@);
    out
}

/// Different bytes have different hexadecimal forms.
pub proof fn lemma_hex_encoded_injective(a: Seq<u8>, b: Seq<u8>)
    requires
        hex_encoded(a) == hex_encoded(b),
    ensures
        a == b,
{
    assert(hex_encoded(a).len() == 2 * a.len());
    assert(hex_encoded(b).len() == 2 * b.len());
    assert forall|i: int| 0 <= i < a.len() implies a[i] == b[i] by {
        assert(hex_encoded(a)[2 * i] == hex_char(a[i] as int / 16));
        assert(hex_encoded(b)[2 * i] == hex_char(b[i] as int / 16));
        assert(hex_encoded(a)[2 * i + 1] == hex_char(a[i] as int % 16));
        assert(hex_encoded(b)[2 * i + 1] == hex_char(b[i] as int % 16));
    }
    assert(a =~= b);
}

} // verus!
