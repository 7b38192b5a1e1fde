//! The heuristic Base64 classifier: a total test that guesses whether a
//! string is plausibly Base64-encoded. It is deliberately permissive — a
//! pre-filter that produces clearer error messages, not a validator.

use vstd::prelude::*;
use vstd::string::StrSliceExecFns;
use vstd::utf8::{encode_utf8, is_ascii_chars, is_ascii_chars_encode_utf8};

verus! {

/// True of the characters Base64 text may contain: the RFC 4648 standard
/// alphabet (ASCII letters, digits, `+`, `/`) and the `=` padding mark.
pub open spec fn is_base64_char(c: char) -> bool {
    let u = c as u32;
    ||| 65 <= u && u <= 90  // 'A' to 'Z'
    ||| 97 <= u && u <= 122  // 'a' to 'z'
    ||| 48 <= u && u <= 57  // '0' to '9'
    ||| c == '+'
    ||| c == '/'
    ||| c == '='
}

/// True when every character of `s` is in the Base64 alphabet or padding.
pub open spec fn all_base64_chars(s: Seq<char>) -> bool {
    forall|i: int| 0 <= i < s.len() ==> is_base64_char(#[trigger] s[i])
}

/// The heuristic length test: the length is a multiple of four, or any other
/// length whose text at least ends in the padding mark. This accepts some
/// lengths that strict Base64 rejects; that looseness is intended.
pub open spec fn plausible_base64_length(s: Seq<char>) -> bool {
    ||| s.len() % 4 == 0
    ||| s.len() > 0 && s[s.len() - 1] == '='
}

/// What the classifier accepts: a plausible length together with characters
/// drawn entirely from the Base64 alphabet and padding.
pub open spec fn likely_base64(s: Seq<char>) -> bool {
    plausible_base64_length(s) && all_base64_chars(s)
}

proof fn lemma_base64_char_is_ascii(c: char)
    requires
        is_base64_char(c),
    ensures
        '\0' <= c <= '\u{7f}',
{
    assert(c as u32 <= 122);
}

/// Base64 text is ASCII, so its UTF-8 byte length equals its character
/// count.
pub proof fn lemma_base64_chars_ascii(s: Seq<char>)
    requires
        all_base64_chars(s),
    ensures
        encode_utf8(s).len() == s.len(),
{
    assert forall|i: int| 0 <= i < s.len() implies '\0' <= #[trigger] s[i] <= '\u{7f}' by {
        lemma_base64_char_is_ascii(s[i]);
    }
    assert(is_ascii_chars(s));
    is_ascii_chars_encode_utf8(s);
}

fn is_base64_char_exec(c: char) -> (r: bool)
    ensures
        r == is_base64_char(c),
{
    let u = c as u32;
    (65 <= u && u <= 90) || (97 <= u && u <= 122) || (48 <= u && u <= 57) || c == '+' || c == '/'
        || c == '='
}

/// Guesses whether `input` is likely Base64-encoded text. Total: it returns
/// a verdict for every string, the empty string included.
pub fn is_likely_base64(input: &str) -> (r: bool)
    ensures
        r == likely_base64(input@),
{
    let n = input.unicode_len();
    let valid_length = n % 4 == 0 || (n > 0 && input.get_char(n - 1) == '=');
    let mut valid_chars = true;
    let mut i: usize = 0;
    while i < n
        invariant
            n == input@.len(),
            0 <= i <= n,
            valid_chars == (forall|j: int| 0 <= j < i ==> is_base64_char(#[trigger] input@[j])),
        decreases n - i,
    {
        if !is_base64_char_exec(input.get_char(i)) {
            valid_chars = false;
        }
        i += 1;
    }
    valid_length && valid_chars
}

} // verus!
