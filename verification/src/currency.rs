//! Exchange-rate support for the calculator's currency conversions.
//!
//! The rate table itself is fetched and cached by the caller; this module
//! holds the parsing of the quote symbols that the rate feed returns.

use vstd::prelude::*;
use vstd::string::StrSliceExecFns;

verus! {

/// Relies on String::push: appends the given character to the end of the
/// string.
pub assume_specification[ String::push ](s: &mut String, ch: char)
    ensures
        final (s)@ == old(s)@.push(ch),
;

/// ASCII lowercase of one character.
pub open spec fn lower_char(c: char) -> char {
    if 'A' <= c <= 'Z' {
        ((c as u8) + 32) as char
    } else {
        c
    }
}

/// Index of the first colon in `s`, or -1.
pub open spec fn first_colon(s: Seq<char>) -> int
    decreases s.len(),
{
    if s.len() == 0 {
        -1
    } else if s[0] == ':' {
        0
    } else {
        let r = first_colon(s.skip(1));
        if r < 0 {
            -1
        } else {
            r + 1
        }
    }
}

proof fn lemma_first_colon_at(s: Seq<char>, i: int)
    requires
        0 <= i <= s.len(),
        forall|j: int| 0 <= j < i ==> s[j] != ':',
        i < s.len() ==> s[i] == ':',
    ensures
        first_colon(s) == if i < s.len() {
            i
        } else {
            -1
        },
    decreases i,
{
    if s.len() == 0 {
    } else if i == 0 {
    } else {
        lemma_first_colon_at(s.skip(1), i - 1);
    }
}

/// The base currency of a rate-feed quote symbol: the three letters after
/// the exchange prefix's colon, lowercased.  Nothing comes out of a
/// symbol without a colon or with fewer than three letters after it.
pub open spec fn symbol_base_currency(s: Seq<char>) -> Option<Seq<char>> {
    let i = first_colon(s);
    if i < 0 || i + 3 >= s.len() {
        Option::None
    } else {
        Option::Some(s.subrange(i + 1, i + 4).map_values(|c: char| lower_char(c)))
    }
}

fn lower_char_exec(c: char) -> (r: char)
    ensures
        r == lower_char(c),
{
    if 'A' <= c && c <= 'Z' {
        (((c as u8) + 32) as char)
    } else {
        c
    }
}

/// Extracts the base currency of one quote symbol from the rate feed,
/// such as the three letters naming the currency a dollar rate is quoted
/// against.
pub fn currency_code_from_symbol(symbol: &str) -> (r: Option<String>)
    ensures
        match symbol_base_currency(symbol@) {
            Option::Some(code) => r matches Some(out) && out@ == code,
            Option::None => r is None,
        },
{
    let len = symbol.unicode_len();
    let mut i: usize = 0;
    while i < len && symbol.get_char(i) != ':'
        invariant
            i <= len,
            len == symbol@.len(),
            forall|j: int| 0 <= j < i ==> symbol@[j] != ':',
        decreases len - i,
    {
        i += 1;
    }
    proof {
        lemma_first_colon_at(symbol@, i as int);
    }
    if i >= len || len - i <= 3 {
        return Option::None;
    }
    let mut out = String::new();
    let mut k: usize = 0;
    while k < 3
        invariant
            k <= 3,
            i + 4 <= len,
            len == symbol@.len(),
            out@.len() == k,
            forall|j: int| 0 <= j < k ==> out@[j] == lower_char(symbol@[i + 1 + j]),
        decreases 3 - k,
    {
        let c = lower_char_exec(symbol.get_char(i + 1 + k));
        out.push(c);
        k += 1;
    }
    proof {
        assert(out@ =~= symbol@.subrange(i + 1, i + 4).map_values(|c: char| lower_char(c)));
    }
    Option::Some(out)
}

} // verus!
