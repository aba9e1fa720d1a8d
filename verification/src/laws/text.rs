//! What the text operations do, character by character.
use vstd::prelude::*;

use crate::text::{
    concatenate, decimal, decimal_i64, decimal_usize, digits_value, hex_char, hex_digit,
    hex_digit_char, hex_encode, hex_encoded, is_digit, is_hex, is_lower_hex, is_white_space,
    is_word, join, joined, lemma_word_len, lemma_words_concat, lemma_words_joined,
    lemma_words_of_word, lower, lower_char, lowered, parse_usize, same_text, signed_decimal,
    split_whitespace, texts, to_ascii_lowercase, trim, trim_end, trim_start, trimmed, usize_value,
    white_space, without_plus, word_len, words,
};
use crate::token::{
    control_token_from, generate_control_token, is_control_token, is_simple_uuid,
};

verus! {

// ---------------------------------------------------------------------------
// Characters
// ---------------------------------------------------------------------------

/// White space are the tab, the line and page breaks, and the blanks, as Unicode numbers them.
pub proof fn law_white_space_characters(c: char, r: bool)
    requires
        call_ensures(white_space, (c,), r),
    ensures
        r == is_white_space(c),
        r == {
            let n = c as int;
            ||| 9 <= n <= 13
            ||| n == 32
            ||| n == 133
            ||| n == 160
            ||| n == 5760
            ||| 8192 <= n <= 8202
            ||| n == 8232
            ||| n == 8233
            ||| n == 8239
            ||| n == 8287
            ||| n == 12288
        },
{
}

/// The hexadecimal digits are the ten figures and the first six letters in either case, and the
/// lower case ones stand for the values from zero to fifteen in this order.
pub proof fn law_hexadecimal_digits(c: char, is_one: bool, value: u8, digit: char)
    requires
        call_ensures(hex_digit_char, (c,), is_one),
        value <= 15,
        call_ensures(hex_digit, (value,), digit),
    ensures
        is_one == ("0123456789abcdef"@.contains(c) || "ABCDEF"@.contains(c)),
        is_one == is_hex(c),
        is_lower_hex(c) == "0123456789abcdef"@.contains(c),
        is_digit(c) == "0123456789"@.contains(c),
        digit == "0123456789abcdef"@[value as int],
        digit == hex_char(value as int),
{
    reveal_strlit("0123456789abcdef");
    reveal_strlit("0123456789");
    reveal_strlit("ABCDEF");
    let lower_digits = "0123456789abcdef"@;
    let upper_digits = "ABCDEF"@;
    let figures = "0123456789"@;
    if is_digit(c) {
        assert(lower_digits[c as int - '0' as int] == c);
        assert(figures[c as int - '0' as int] == c);
    } else if 'a' <= c <= 'f' {
        assert(lower_digits[c as int - 'a' as int + 10] == c);
    } else if 'A' <= c <= 'F' {
        assert(upper_digits[c as int - 'A' as int] == c);
    }
}

/// Lower case changes the letters from `A` to `Z`, each to the one 32 places behind it, and no
/// other character. What is in lower case stays as it is.
pub proof fn law_lower_case(text: &str, r: String, c: char, low: char)
    requires
        call_ensures(to_ascii_lowercase, (text,), r),
        call_ensures(lower_char, (c,), low),
    ensures
        r@ == lowered(text@),
        r@.len() == text@.len(),
        forall|i: int|
            0 <= i < text@.len() ==> (#[trigger] r@[i]) as int == text@[i] as int + if 65
                <= text@[i] as int <= 90 {
                32int
            } else {
                0
            },
        low as int == c as int + if 65 <= c as int <= 90 {
            32int
        } else {
            0
        },
        low == lower(c),
        lowered(r@) == r@,
{
    assert(lowered(r@) =~= r@);
}

// ---------------------------------------------------------------------------
// Trimming and splitting
// ---------------------------------------------------------------------------

proof fn lemma_trim_start(s: Seq<char>) -> (i: int)
    ensures
        0 <= i <= s.len(),
        trim_start(s) == s.skip(i),
        forall|k: int| 0 <= k < i ==> is_white_space(#[trigger] s[k]),
        i < s.len() ==> !is_white_space(s[i]),
    decreases s.len(),
{
    if s.len() > 0 && is_white_space(s[0]) {
        let rest = s.drop_first();
        let i = lemma_trim_start(rest);
        assert(rest.skip(i) =~= s.skip(i + 1));
        assert forall|k: int| 0 <= k < i + 1 implies is_white_space(#[trigger] s[k]) by {
            if k > 0 {
                assert(rest[k - 1] == s[k]);
            }
        }
        i + 1
    } else {
        assert(s.skip(0) =~= s);
        0
    }
}

proof fn lemma_trim_end(s: Seq<char>) -> (j: int)
    ensures
        0 <= j <= s.len(),
        trim_end(s) == s.take(j),
        forall|k: int| j <= k < s.len() ==> is_white_space(#[trigger] s[k]),
        j > 0 ==> !is_white_space(s[j - 1]),
    decreases s.len(),
{
    if s.len() > 0 && is_white_space(s.last()) {
        let rest = s.drop_last();
        let j = lemma_trim_end(rest);
        assert(rest.take(j) =~= s.take(j));
        assert forall|k: int| j <= k < s.len() implies is_white_space(#[trigger] s[k]) by {
            if k < rest.len() {
                assert(rest[k] == s[k]);
            }
        }
        j
    } else {
        assert(s.take(s.len() as int) =~= s);
        s.len() as int
    }
}

/// Trimming cuts white space off both ends, all that is there and nothing else.
pub proof fn law_trimming(text: &str, r: String)
    requires
        call_ensures(trim, (text,), r),
    ensures
        r@ == trimmed(text@),
        exists|i: int, j: int|
            {
                &&& 0 <= i <= j <= text@.len()
                &&& r@ == #[trigger] text@.subrange(i, j)
                &&& forall|k: int| 0 <= k < i || j <= k < text@.len() ==> is_white_space(
                    #[trigger] text@[k],
                )
                &&& i < j ==> !is_white_space(text@[i]) && !is_white_space(text@[j - 1])
            },
{
    let s = text@;
    let i = lemma_trim_start(s);
    let t = s.skip(i);
    let n = lemma_trim_end(t);
    assert(t.take(n) =~= s.subrange(i, i + n));
    assert forall|k: int| 0 <= k < i || i + n <= k < s.len() implies is_white_space(
        #[trigger] s[k],
    ) by {
        if k >= i + n {
            assert(t[k - i] == s[k]);
        }
    }
    if n > 0 {
        assert(t[0] == s[i]);
        assert(t[n - 1] == s[i + n - 1]);
    }
}

/// The words of a text are what stands between its white space: white space in front does not
/// count, and a word ends where the text or the next white space is.
pub proof fn law_splitting(text: &str, r: Vec<String>)
    requires
        call_ensures(split_whitespace, (text,), r),
    ensures
        r@.len() == words(text@).len(),
        forall|i: int| 0 <= i < r@.len() ==> (#[trigger] r@[i])@ == words(text@)[i],
        words(Seq::empty()) == Seq::<Seq<char>>::empty(),
        forall|c: char, s: Seq<char>|
            is_white_space(c) ==> #[trigger] words(seq![c] + s) == words(s),
        forall|word: Seq<char>, rest: Seq<char>|
            {
                &&& word.len() > 0
                &&& forall|i: int| 0 <= i < word.len() ==> !is_white_space(#[trigger] word[i])
                &&& rest.len() == 0 || is_white_space(rest[0])
            } ==> #[trigger] words(word + rest) == seq![word] + words(rest),
{
    assert forall|i: int| 0 <= i < r@.len() implies (#[trigger] r@[i])@ == words(text@)[i] by {
        assert(texts(r@)[i] == r@[i]@);
    }
    assert forall|c: char, s: Seq<char>| is_white_space(c) implies #[trigger] words(seq![c] + s)
        == words(s) by {
        assert((seq![c] + s).drop_first() =~= s);
    }
    assert forall|word: Seq<char>, rest: Seq<char>|
        {
            &&& word.len() > 0
            &&& forall|i: int| 0 <= i < word.len() ==> !is_white_space(#[trigger] word[i])
            &&& rest.len() == 0 || is_white_space(rest[0])
        } implies #[trigger] words(word + rest) == seq![word] + words(rest) by {
        assert(is_word(word));
        lemma_words_concat(word, rest);
        lemma_words_of_word(word);
    }
}

/// A text without its white space is the row of its words.
pub proof fn law_words_keep_the_characters(s: Seq<char>)
    ensures
        joined(words(s), Seq::empty()) == s.filter(|c: char| !is_white_space(c)),
    decreases s.len(),
{
    let keep = |c: char| !is_white_space(c);
    let none = Seq::<char>::empty();
    if s.len() == 0 {
        assert(s.filter(keep) =~= none) by {
            reveal(Seq::filter);
        }
    } else if is_white_space(s[0]) {
        let rest = s.drop_first();
        law_words_keep_the_characters(rest);
        assert(s =~= seq![s[0]] + rest);
        Seq::filter_distributes_over_add(seq![s[0]], rest, keep);
        assert(seq![s[0]].filter(keep) =~= none) by {
            reveal(Seq::filter);
            let one = seq![s[0]];
            assert(one.drop_last() =~= none);
            assert(none.filter(keep) =~= none);
            assert(one.last() == s[0]);
        }
        assert(none + rest.filter(keep) =~= rest.filter(keep));
    } else {
        lemma_word_len(s);
        let n = word_len(s) as int;
        let word = s.take(n);
        let rest = s.skip(n);
        law_words_keep_the_characters(rest);
        assert(s =~= word + rest);
        Seq::filter_distributes_over_add(word, rest, keep);
        lemma_kept(word);
        lemma_joined_front(word, words(rest), none);
        assert(none + joined(words(rest), none) =~= joined(words(rest), none));
        assert(word + none + joined(words(rest), none) =~= word + joined(words(rest), none));
        if words(rest).len() == 0 {
            assert(word + joined(words(rest), none) =~= word);
        }
    }
}

proof fn lemma_kept(word: Seq<char>)
    requires
        forall|i: int| 0 <= i < word.len() ==> !is_white_space(#[trigger] word[i]),
    ensures
        word.filter(|c: char| !is_white_space(c)) == word,
    decreases word.len(),
{
    let keep = |c: char| !is_white_space(c);
    reveal(Seq::filter);
    if word.len() > 0 {
        let init = word.drop_last();
        assert forall|i: int| 0 <= i < init.len() implies !is_white_space(#[trigger] init[i]) by {
            assert(init[i] == word[i]);
        }
        lemma_kept(init);
        assert(init.push(word.last()) =~= word);
    } else {
        assert(word.filter(keep) =~= word);
    }
}

proof fn lemma_joined_front(first: Seq<char>, rest: Seq<Seq<char>>, sep: Seq<char>)
    ensures
        joined(seq![first] + rest, sep) == if rest.len() == 0 {
            first
        } else {
            first + sep + joined(rest, sep)
        },
    decreases rest.len(),
{
    let all = seq![first] + rest;
    if rest.len() > 0 {
        assert(all.drop_last() =~= seq![first] + rest.drop_last());
        assert(all.last() == rest.last());
        lemma_joined_front(first, rest.drop_last(), sep);
        if rest.len() == 1 {
            assert(rest.drop_last().len() == 0);
        } else {
            assert(joined(rest, sep) == joined(rest.drop_last(), sep) + sep + rest.last());
            let init = joined(rest.drop_last(), sep);
            assert(first + sep + init + sep + rest.last() =~= first + sep + (init + sep
                + rest.last()));
        }
    }
}

/// Joining puts the texts from an index on one behind the other, with the separator between
/// neighbours and nowhere else. Words that are joined by spaces are split into the same words.
pub proof fn law_joining(list: Vec<String>, from: usize, sep: &str, r: String, first: Seq<char>)
    requires
        from <= list@.len(),
        call_ensures(join, (&list, from, sep), r),
    ensures
        r@ == joined(texts(list@).skip(from as int), sep@),
        joined(Seq::empty(), sep@) == Seq::<char>::empty(),
        joined(seq![first], sep@) == first,
        forall|rest: Seq<Seq<char>>|
            rest.len() > 0 ==> #[trigger] joined(seq![first] + rest, sep@) == first + sep@ + joined(
                rest,
                sep@,
            ),
        forall|all: Seq<Seq<char>>|
            (forall|i: int| 0 <= i < all.len() ==> is_word(#[trigger] all[i])) ==> words(
                #[trigger] joined(all, " "@),
            ) == all,
{
    assert forall|rest: Seq<Seq<char>>| rest.len() > 0 implies #[trigger] joined(
        seq![first] + rest,
        sep@,
    ) == first + sep@ + joined(rest, sep@) by {
        lemma_joined_front(first, rest, sep@);
    }
    assert forall|all: Seq<Seq<char>>|
        (forall|i: int| 0 <= i < all.len() ==> is_word(#[trigger] all[i])) implies words(
        #[trigger] joined(all, " "@),
    ) == all by {
        lemma_words_joined(all);
    }
}

/// Two texts are the same exactly if their characters are, and putting them together keeps both.
pub proof fn law_comparing_and_putting_together(a: &str, b: &str, same: bool, both: String)
    requires
        call_ensures(same_text, (a, b), same),
        call_ensures(concatenate, (a, b), both),
    ensures
        same == (a@ == b@),
        both@.len() == a@.len() + b@.len(),
        both@.take(a@.len() as int) == a@,
        both@.skip(a@.len() as int) == b@,
{
    assert(both@.take(a@.len() as int) =~= a@);
    assert(both@.skip(a@.len() as int) =~= b@);
}

// ---------------------------------------------------------------------------
// Numbers
// ---------------------------------------------------------------------------

proof fn lemma_decimal(n: nat)
    ensures
        decimal(n).len() > 0,
        forall|i: int| 0 <= i < decimal(n).len() ==> is_digit(#[trigger] decimal(n)[i]),
        digits_value(decimal(n)) == n,
        decimal(n)[0] == '0' ==> n == 0,
    decreases n,
{
    if n < 10 {
        assert(decimal(n) =~= seq![hex_char(n as int)]);
        assert(decimal(n).drop_last() =~= Seq::<char>::empty());
        assert(digits_value(decimal(n).drop_last()) == 0);
        assert(decimal(n).last() == hex_char(n as int));
    } else {
        lemma_decimal(n / 10);
        let init = decimal(n / 10);
        let digit = hex_char((n % 10) as int);
        assert(decimal(n) == init.push(digit));
        assert(decimal(n).drop_last() =~= init);
        assert(decimal(n)[0] == init[0]);
        assert forall|i: int| 0 <= i < decimal(n).len() implies is_digit(
            #[trigger] decimal(n)[i],
        ) by {
            if i < init.len() {
                assert(decimal(n)[i] == init[i]);
            }
        }
    }
}

/// A row of digits is read from the left, each digit ten times the one behind it.
pub proof fn law_digits_have_their_places(digits: Seq<char>, last: char)
    requires
        "0123456789"@.contains(last),
    ensures
        digits_value(Seq::empty()) == 0,
        digits_value(digits.push(last)) == 10 * digits_value(digits) + (last as int - 48),
{
    reveal_strlit("0123456789");
    assert(digits.push(last).drop_last() =~= digits);
}

/// A number is written with decimal digits that have its value, without zeros in front, and with a
/// minus sign where it is negative. So different numbers look different.
pub proof fn law_numbers_are_written_in_decimal(n: usize, shown: String, k: i64, signed: String)
    requires
        call_ensures(decimal_usize, (n,), shown),
        call_ensures(decimal_i64, (k,), signed),
    ensures
        shown@ == decimal(n as nat),
        signed@ == signed_decimal(k as int),
        forall|m: nat|
            {
                &&& (#[trigger] decimal(m)).len() > 0
                &&& forall|i: int| 0 <= i < decimal(m).len() ==> is_digit(#[trigger] decimal(m)[i])
                &&& digits_value(decimal(m)) == m
                &&& decimal(m)[0] == '0' ==> m == 0 && decimal(m).len() == 1
            },
        k >= 0 ==> signed@ == decimal(k as nat),
        k < 0 ==> signed@ == seq!['-'] + decimal((-k) as nat),
{
    assert forall|m: nat|
        {
            &&& (#[trigger] decimal(m)).len() > 0
            &&& forall|i: int| 0 <= i < decimal(m).len() ==> is_digit(#[trigger] decimal(m)[i])
            &&& digits_value(decimal(m)) == m
            &&& decimal(m)[0] == '0' ==> m == 0 && decimal(m).len() == 1
        } by {
        lemma_decimal(m);
    }
}

/// Different integers are written differently.
pub proof fn law_written_integers_differ(a: int, b: int)
    ensures
        signed_decimal(a) == signed_decimal(b) ==> a == b,
{
    if a < 0 {
        lemma_decimal((-a) as nat);
        assert(signed_decimal(a).drop_first() =~= decimal((-a) as nat));
        assert(signed_decimal(a)[0] == '-');
    } else {
        lemma_decimal(a as nat);
        assert(is_digit(signed_decimal(a)[0]));
    }
    if b < 0 {
        lemma_decimal((-b) as nat);
        assert(signed_decimal(b).drop_first() =~= decimal((-b) as nat));
        assert(signed_decimal(b)[0] == '-');
    } else {
        lemma_decimal(b as nat);
        assert(is_digit(signed_decimal(b)[0]));
    }
}

/// A text is read as a number exactly if it is a row of digits, with or without a plus sign in
/// front, whose value can be held. What is written in decimal is read back.
pub proof fn law_numbers_are_read(text: &str, r: Option<usize>, n: nat)
    requires
        call_ensures(parse_usize, (text,), r),
    ensures
        (r matches Some(number) && number == n) == (usize_value(text@) == Some(n)),
        (usize_value(text@) == Some(n)) == {
            let from: int = if text@.len() > 0 && text@[0] == '+' {
                1
            } else {
                0
            };
            &&& from < text@.len()
            &&& forall|i: int| from <= i < text@.len() ==> is_digit(#[trigger] text@[i])
            &&& digits_value(text@.skip(from)) == n
            &&& n <= usize::MAX
        },
        n <= usize::MAX ==> usize_value(decimal(n)) == Some(n),
{
    lemma_decimal(n);
    assert(is_digit(decimal(n)[0]));
    assert(without_plus(decimal(n)) == decimal(n));
    let from: int = if text@.len() > 0 && text@[0] == '+' {
        1
    } else {
        0
    };
    let digits = text@.skip(from);
    assert(digits =~= without_plus(text@));
    assert(forall|i: int| 0 <= i < digits.len() ==> #[trigger] digits[i] == text@[i + from]);
    assert(forall|i: int| from <= i < text@.len() ==> #[trigger] text@[i] == digits[i - from]);
}

/// Each byte of a text in UTF-8 becomes two digits, the high one first.
pub proof fn law_hexadecimal_form(text: &str, r: String)
    requires
        call_ensures(hex_encode, (text,), r),
    ensures
        r@ == hex_encoded(vstd::utf8::encode_utf8(text@)),
        ({
            let bytes = vstd::utf8::encode_utf8(text@);
            &&& r@.len() == 2 * bytes.len()
            &&& forall|i: int|
                0 <= i < bytes.len() ==> r@[2 * i] == "0123456789abcdef"@[(#[trigger] bytes[i])
                    as int / 16]
            &&& forall|i: int|
                0 <= i < bytes.len() ==> r@[2 * i + 1] == "0123456789abcdef"@[(
                #[trigger] bytes[i]) as int % 16]
        }),
{
    reveal_strlit("0123456789abcdef");
    let bytes = vstd::utf8::encode_utf8(text@);
    assert forall|i: int| 0 <= i < bytes.len() implies {
        &&& r@[2 * i] == "0123456789abcdef"@[(#[trigger] bytes[i]) as int / 16]
        &&& r@[2 * i + 1] == "0123456789abcdef"@[bytes[i] as int % 16]
    } by {
        assert((2 * i) / 2 == i && (2 * i) % 2 == 0);
        assert((2 * i + 1) / 2 == i && (2 * i + 1) % 2 == 1);
    }
}

/// A control token is twelve hexadecimal digits in lower case: the first of the digits that it is
/// made from, or fresh ones.
pub proof fn law_control_tokens(uuid: &str, token: String, fresh: String)
    requires
        is_simple_uuid(uuid@),
        call_ensures(control_token_from, (uuid,), token),
        call_ensures(generate_control_token, (), fresh),
    ensures
        token@ == uuid@.take(12),
        fresh@.len() == 12,
        forall|i: int| 0 <= i < 12 ==> "0123456789abcdef"@.contains(#[trigger] fresh@[i]),
        is_control_token(fresh@),
{
    assert forall|i: int| 0 <= i < 12 implies "0123456789abcdef"@.contains(
        #[trigger] fresh@[i],
    ) by {
        reveal_strlit("0123456789abcdef");
        let c = fresh@[i];
        assert(is_lower_hex(c));
        let digits = "0123456789abcdef"@;
        if is_digit(c) {
            assert(digits[c as int - '0' as int] == c);
        } else {
            assert(digits[c as int - 'a' as int + 10] == c);
        }
    }
}

} // verus!
