//! The commands that a chat message can hold.
use vstd::prelude::*;

use crate::text::{
    chars_of, hex_digit_char, is_hex, is_word, join, joined, lemma_joined_ends,
    lemma_words_are_words, lowered, same_text, split_whitespace, to_ascii_lowercase, trim, words,
};

verus! {

/// The most characters that a prompt may have.
pub const MAX_PROMPT_CHARS: usize = 2_000;

/// The most digits that a token may have.
pub const MAX_TOKEN_CHARS: usize = 64;

/// Whether a word calls the command `name`: it is that name in either case, or that name
/// addressed to a bot.
pub open spec fn calls(word: Seq<char>, name: Seq<char>) -> bool {
    ||| lowered(word) == name
    ||| (name + "@"@).is_prefix_of(lowered(word))
}

/// Whether a word can be a token: hexadecimal digits, in either case, at least one and at most 64.
pub open spec fn is_token(word: Seq<char>) -> bool {
    &&& 1 <= word.len() <= MAX_TOKEN_CHARS
    &&& forall|i: int| 0 <= i < word.len() ==> is_hex(#[trigger] word[i])
}

/// The token and the choice that a message holds: the words are the command, the token and the
/// choice, and there is no other.
pub open spec fn choice_command(text: Seq<char>) -> Option<(Seq<char>, Seq<char>)> {
    let parts = words(text);
    if parts.len() == 3 && calls(parts[0], "/cx"@) && is_token(parts[1]) {
        Some((lowered(parts[1]), lowered(parts[2])))
    } else {
        None
    }
}

/// The token and the prompt that a message holds: the words are the command and the token, and
/// the others, with single spaces between them, are the prompt.
pub open spec fn prompt_command(text: Seq<char>) -> Option<(Seq<char>, Seq<char>)> {
    let parts = words(text);
    if parts.len() >= 3 && calls(parts[0], "/cxi"@) && is_token(parts[1]) {
        let prompt = joined(parts.skip(2), " "@);
        if prompt.len() <= MAX_PROMPT_CHARS {
            Some((lowered(parts[1]), prompt))
        } else {
            None
        }
    } else {
        None
    }
}

/// The contents of a pair of strings.
pub open spec fn pair_view(pair: Option<(String, String)>) -> Option<(Seq<char>, Seq<char>)> {
    match pair {
        Some((a, b)) => Some((a@, b@)),
        None => None,
    }
}

/// Whether a text begins with another.
fn starts_with(text: &str, prefix: &str) -> (r: bool)
    ensures
        r == prefix@.is_prefix_of(text@),
{
    let chars = chars_of(text);
    let start = chars_of(prefix);
    if start.len() > chars.len() {
        return false;
    }
    for i in 0..start.len()
        invariant
            chars@ == text@,
            start@ == prefix@,
            start@.len() <= chars@.len(),
            forall|j: int| 0 <= j < i ==> #[trigger] prefix@[j] == text@[j],
    {
        if start[i] != chars[i] {
            assert(text@.subrange(0, prefix@.len() as int)[i as int] == text@[i as int]);
            return false;
        }
    }
    assert(prefix@ =~= text@.subrange(0, prefix@.len() as int));
    true
}

/// Whether a word, already in lower case, calls the command `name`.
fn calls_command(command: &str, name: &str) -> (r: bool)
    ensures
        r == (command@ == name@ || (name@ + "@"@).is_prefix_of(command@)),
{
    let mut addressed = name.to_owned();
    addressed.append("@");
    same_text(command, name) || starts_with(command, addressed.as_str())
}

/// Whether a word can be a token.
fn valid_token(token: &str) -> (r: bool)
    ensures
        r == is_token(token@),
{
    let chars = chars_of(token);
    if chars.len() == 0 || chars.len() > MAX_TOKEN_CHARS {
        return false;
    }
    for i in 0..chars.len()
        invariant
            chars@ == token@,
            1 <= chars@.len() <= MAX_TOKEN_CHARS,
            forall|j: int| 0 <= j < i ==> is_hex(#[trigger] token@[j]),
    {
        if !hex_digit_char(chars[i]) {
            assert(!is_hex(token@[i as int]));
            return false;
        }
    }
    true
}

pub proof fn lemma_token_case(word: Seq<char>)
    ensures
        is_token(lowered(word)) == is_token(word),
{
    let low = lowered(word);
    if is_token(low) {
        assert forall|i: int| 0 <= i < word.len() implies is_hex(#[trigger] word[i]) by {
            assert(is_hex(low[i]));
        }
    }
}

/// The token and the choice of a command that answers a decision.
pub fn parse_choice_command(text: &str) -> (r: Option<(String, String)>)
    ensures
        pair_view(r) == choice_command(text@),
{
    let parts = split_whitespace(text);
    let ghost all = words(text@);
    assert(all.len() == parts@.len());
    if parts.len() != 3 {
        return None;
    }
    assert(all[0] == parts@[0]@ && all[1] == parts@[1]@ && all[2] == parts@[2]@);
    let command = to_ascii_lowercase(parts[0].as_str());
    if !calls_command(command.as_str(), "/cx") {
        return None;
    }
    let token = to_ascii_lowercase(parts[1].as_str());
    proof {
        lemma_token_case(all[1]);
    }
    if !valid_token(token.as_str()) {
        return None;
    }
    let choice = to_ascii_lowercase(parts[2].as_str());
    Some((token, choice))
}

/// The token and the text of a command that carries a prompt.
pub fn parse_prompt_command(text: &str) -> (r: Option<(String, String)>)
    ensures
        pair_view(r) == prompt_command(text@),
{
    let parts = split_whitespace(text);
    let ghost all = words(text@);
    assert(all.len() == parts@.len());
    if parts.len() < 2 {
        return None;
    }
    assert(all[0] == parts@[0]@ && all[1] == parts@[1]@);
    let command = to_ascii_lowercase(parts[0].as_str());
    if !calls_command(command.as_str(), "/cxi") {
        return None;
    }
    let token = to_ascii_lowercase(parts[1].as_str());
    proof {
        lemma_token_case(all[1]);
    }
    if !valid_token(token.as_str()) {
        return None;
    }
    let prompt = trim(join(&parts, 2, " ").as_str());
    proof {
        lemma_words_are_words(text@);
        if all.len() >= 3 {
            assert forall|i: int| 0 <= i < all.skip(2).len() implies is_word(
                #[trigger] all.skip(2)[i],
            ) by {
                assert(all.skip(2)[i] == all[i + 2]);
            }
            lemma_joined_ends(all.skip(2));
        }
    }
    if prompt.as_str().is_empty() || prompt.as_str().unicode_len() > MAX_PROMPT_CHARS {
        return None;
    }
    Some((token, prompt))
}

} // verus!
