//! Calculator items.
//!
//! A calculator item has no search text: it decides its own visibility by
//! trying to evaluate the query as a mathematical expression.  It shows
//! exactly when the trimmed query evaluates to something other than
//! itself, and it remembers the result so that activating the item copies
//! it.

use vstd::prelude::*;
use vstd::string::StrSliceExecFns;

use crate::launcher::str_text_eq;

verus! {

/// Which kinds of expressions a calculator item accepts.
#[derive(Clone, Copy, PartialEq, Eq, Structural, Debug)]
pub struct Capabilities {
    pub math: bool,
    pub units: bool,
}

/// ASCII whitespace, as the query trimming understands it.
pub open spec fn is_ws(c: char) -> bool {
    c == ' ' || c == '\t' || c == '\n' || c == '\r'
}

pub open spec fn trim_front(s: Seq<char>) -> Seq<char>
    decreases s.len(),
{
    if s.len() > 0 && is_ws(s[0]) {
        trim_front(s.skip(1))
    } else {
        s
    }
}

pub open spec fn trim_back(s: Seq<char>) -> Seq<char>
    decreases s.len(),
{
    if s.len() > 0 && is_ws(s.last()) {
        trim_back(s.drop_last())
    } else {
        s
    }
}

/// The text with ASCII whitespace removed from both ends.
pub open spec fn trim_spec(s: Seq<char>) -> Seq<char> {
    trim_back(trim_front(s))
}

proof fn lemma_trim_front_at(s: Seq<char>, a: int)
    requires
        0 <= a <= s.len(),
        forall|i: int| 0 <= i < a ==> is_ws(s[i]),
        a < s.len() ==> !is_ws(s[a]),
    ensures
        trim_front(s) =~= s.subrange(a, s.len() as int),
    decreases a,
{
    if a == 0 {
    } else {
        lemma_trim_front_at(s.skip(1), a - 1);
    }
}

proof fn lemma_trim_back_at(s: Seq<char>, b: int)
    requires
        0 <= b <= s.len(),
        forall|i: int| b <= i < s.len() ==> is_ws(s[i]),
        b > 0 ==> !is_ws(s[b - 1]),
    ensures
        trim_back(s) =~= s.subrange(0, b),
    decreases s.len(),
{
    if b < s.len() {
        lemma_trim_back_at(s.drop_last(), b);
    }
}

fn is_ws_exec(c: char) -> (r: bool)
    ensures
        r == is_ws(c),
{
    c == ' ' || c == '\t' || c == '\n' || c == '\r'
}

/// The query with ASCII whitespace stripped from both ends.
pub fn trim_ascii(s: &str) -> (t: &str)
    ensures
        t@ == trim_spec(s@),
{
    let len = s.unicode_len();
    let mut a: usize = 0;
    while a < len && is_ws_exec(s.get_char(a))
        invariant
            a <= len,
            len == s@.len(),
            forall|i: int| 0 <= i < a ==> is_ws(s@[i]),
        decreases len - a,
    {
        a += 1;
    }
    let mut b: usize = len;
    while b > a && is_ws_exec(s.get_char(b - 1))
        invariant
            a <= b <= len,
            len == s@.len(),
            forall|i: int| b <= i < len ==> is_ws(s@[i]),
        decreases b,
    {
        b -= 1;
    }
    let t = s.substring_char(a, b);
    proof {
        lemma_trim_front_at(s@, a as int);
        let front = s@.subrange(a as int, s@.len() as int);
        lemma_trim_back_at(front, b - a);
        assert(front.subrange(0, b - a) =~= s@.subrange(a as int, b as int));
        assert(t@ =~= trim_spec(s@));
    }
    t
}

/// What evaluating a query as a mathematical expression yields: the
/// decimal rendering of its value, or nothing when it does not parse.
/// The result is a function of the expression text alone.
pub uninterp spec fn math_eval(expr: Seq<char>) -> Option<Seq<char>>;

/// Relies on meval::eval_str: parses and evaluates the expression with the
/// built-in context, deterministically in the text alone; the value is
/// rendered in decimal.
#[verifier::external_body]
fn eval_math_expr(expr: &str) -> (r: Option<String>)
    ensures
        r is Some <==> math_eval(expr@) is Some,
        r matches Some(s) ==> math_eval(expr@) matches Some(v) && s@ == v,
{
    match meval::eval_str(expr) {
        Ok(v) => Some(v.to_string()),
        Err(_) => None,
    }
}

/// The calculator shows itself exactly when the trimmed query is
/// non-empty, mathematics is enabled, and the query evaluates to a text
/// other than itself.
pub open spec fn calc_shows(math_allowed: bool, q: Seq<char>) -> bool {
    let t = trim_spec(q);
    &&& t.len() > 0
    &&& math_allowed
    &&& match math_eval(t) {
        Option::Some(r) => r != t,
        Option::None => false,
    }
}

/// The result a calculator item remembers for the query: the evaluated
/// text, exactly when the item shows itself.
pub open spec fn calc_result(math_allowed: bool, q: Seq<char>) -> Option<Seq<char>> {
    if calc_shows(math_allowed, q) {
        math_eval(trim_spec(q))
    } else {
        Option::None
    }
}

/// A calculator item: its capabilities and the last computed result.
pub struct CalcData {
    pub capabilities: Capabilities,
    pub result: Option<String>,
}

impl CalcData {
    pub fn new(capabilities: Capabilities) -> (r: CalcData)
        ensures
            r.capabilities == capabilities,
            r.result is None,
    {
        CalcData { capabilities, result: Option::None }
    }

    /// Evaluates the query; the result is present exactly when the item
    /// should show itself.
    pub fn evaluate(&self, keyword: &str) -> (r: Option<String>)
        ensures
            r is Some <==> calc_shows(self.capabilities.math, keyword@),
            r matches Some(s) ==> calc_result(self.capabilities.math, keyword@) matches Some(v)
                && s@ == v,
    {
        let trimmed = trim_ascii(keyword);
        if trimmed.unicode_len() == 0 {
            return Option::None;
        }
        if !self.capabilities.math {
            return Option::None;
        }
        match eval_math_expr(trimmed) {
            Option::Some(r) => {
                if str_text_eq(r.as_str(), trimmed) {
                    Option::None
                } else {
                    Option::Some(r)
                }
            },
            Option::None => Option::None,
        }
    }

    /// The variant-specific visibility override: show the item exactly
    /// when the query evaluates to something new.
    pub fn based_show(&self, keyword: &str) -> (show: bool)
        ensures
            show == calc_shows(self.capabilities.math, keyword@),
    {
        match self.evaluate(keyword) {
            Option::Some(_) => true,
            Option::None => false,
        }
    }

    /// Re-evaluates the query and stores the result in the item's cell.
    pub fn refresh(&mut self, keyword: &str)
        ensures
            final (self).capabilities == old(self).capabilities,
            final (self).result is Some <==> calc_shows(old(self).capabilities.math, keyword@),
            final (self).result matches Some(s) ==> calc_result(
                old(self).capabilities.math,
                keyword@,
            ) matches Some(v) && s@ == v,
    {
        self.result = self.evaluate(keyword);
    }
}

} // verus!
