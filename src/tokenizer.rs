use vstd::prelude::*;
use vstd::string::StringExecFns;
use vstd::std_specs::iter::IteratorSpec;
use crate::token::{Tok, Token};

verus! {

/// Whitespace between tokens is skipped by the tokenizer itself.
pub open spec fn is_space(c: char) -> bool {
    c == ' ' || c == '\t' || c == '\n' || c == '\r'
}

pub open spec fn is_digit(c: char) -> bool {
    '0' <= c && c <= '9'
}

/// The first position at or after `i` that holds no whitespace.
pub open spec fn skip_space(s: Seq<char>, i: int) -> int
    decreases s.len() - i,
{
    if 0 <= i < s.len() && is_space(s[i]) {
        skip_space(s, i + 1)
    } else {
        i
    }
}

/// The first position at or after `i` that holds no digit.
pub open spec fn digits_end(s: Seq<char>, i: int) -> int
    decreases s.len() - i,
{
    if 0 <= i < s.len() && is_digit(s[i]) {
        digits_end(s, i + 1)
    } else {
        i
    }
}

/// Where a number literal that starts at `i` ends: one or more digits, then
/// optionally a decimal point followed by one or more digits.
pub open spec fn number_end(s: Seq<char>, i: int) -> int {
    let e = digits_end(s, i);
    if 0 <= e && e + 1 < s.len() && s[e] == '.' && is_digit(s[e + 1]) {
        digits_end(s, e + 1)
    } else {
        e
    }
}

/// The operator or parenthesis that a character stands for, if any.
pub open spec fn symbol_tok(c: char) -> Option<Tok> {
    if c == '+' {
        Some(Tok::Add)
    } else if c == '-' {
        Some(Tok::Subtract)
    } else if c == '*' {
        Some(Tok::Multiply)
    } else if c == '/' {
        Some(Tok::Divide)
    } else if c == '^' {
        Some(Tok::Power)
    } else if c == '(' {
        Some(Tok::LeftParen)
    } else if c == ')' {
        Some(Tok::RightParen)
    } else {
        None
    }
}

/// The token read from position `i` of `s` and the position after it, or
/// `None` where the first character after the whitespace is not recognised.
pub open spec fn token_at(s: Seq<char>, i: int) -> Option<(Tok, int)> {
    let j = skip_space(s, i);
    if j >= s.len() {
        Some((Tok::EOF, j))
    } else if symbol_tok(s[j]) is Some {
        Some((symbol_tok(s[j])->0, j + 1))
    } else if is_digit(s[j]) {
        Some((Tok::Num(s.subrange(j, number_end(s, j))), number_end(s, j)))
    } else {
        None
    }
}

/// The tokens of `s` from position `i` on. The sequence ends with `EOF`, or,
/// where an unrecognised character comes first, stops short before it.
pub open spec fn lex_from(s: Seq<char>, i: int) -> Seq<Tok>
    decreases s.len() - i,
{
    match token_at(s, i) {
        None => seq![],
        Some((t, j)) => if t is EOF {
            seq![Tok::EOF]
        } else if 0 <= i < j <= s.len() {
            seq![t] + lex_from(s, j)
        } else {
            seq![]
        },
    }
}

/// The tokens of a whole text.
pub open spec fn lex(s: Seq<char>) -> Seq<Tok> {
    lex_from(s, 0)
}

/// Relies on `String::push`, which appends one character at the end.
#[verifier::external_body]
fn push_char(s: &mut String, c: char)
    ensures
        final(s)@ == old(s)@.push(c),
{
    s.push(c)
}

/// The characters of a text, in order.
fn chars_of(s: &str) -> (r: Vec<char>)
    ensures
        r@ == s@,
{
    broadcast use vstd::string::axiom_spec_iter, vstd::string::next_postcondition;

    let mut it = s.chars();
    let mut out: Vec<char> = Vec::new();
    loop
        invariant
            it.obeys_prophetic_iter_laws(),
            it.decrease() is Some,
            out@ + it.remaining() == s@,
        decreases it.decrease()->0,
    {
        match it.next() {
            Some(c) => {
                assert(out@.push(c) + it.remaining() =~= s@);
                out.push(c);
            },
            None => {
                assert(out@ =~= s@);
                return out;
            },
        }
    }
}

/// Reads tokens from a text one at a time, on demand.
pub struct Tokenizer {
    pub(crate) chars: Vec<char>,
    pub(crate) len: usize,
    pub(crate) pos: usize,
}

impl Tokenizer {
    pub open(crate) spec fn text(&self) -> Seq<char> {
        self.chars@
    }

    pub open(crate) spec fn position(&self) -> int {
        self.pos as int
    }

    pub open(crate) spec fn wf(&self) -> bool {
        self.len == self.chars.len() && self.pos <= self.len
    }

    /// The tokens that are still to come.
    pub open spec fn remaining(&self) -> Seq<Tok> {
        lex_from(self.text(), self.position())
    }

    pub fn new(expr: &str) -> (r: Self)
        ensures
            r.wf(),
            r.text() == expr@,
            r.position() == 0,
    {
        let chars = chars_of(expr);
        let len = chars.len();
        Tokenizer { chars, len, pos: 0 }
    }

    /// The characters from position `i` up to `e`, as a string.
    fn text_between(&self, i: usize, e: usize) -> (r: String)
        requires
            self.wf(),
            i <= e <= self.len,
        ensures
            r@ == self.text().subrange(i as int, e as int),
    {
        let mut out = String::new();
        let mut k: usize = i;
        while k < e
            invariant
                self.wf(),
                i <= k <= e <= self.len,
                out@ == self.text().subrange(i as int, k as int),
            decreases e - k,
        {
            push_char(&mut out, self.chars[k]);
            assert(out@ =~= self.text().subrange(i as int, k + 1));
            k = k + 1;
        }
        out
    }

    /// Position after the run of digits that starts at `i`.
    fn scan_digits(&self, i: usize) -> (r: usize)
        requires
            self.wf(),
            i <= self.len,
        ensures
            r as int == digits_end(self.text(), i as int),
            i <= r <= self.len,
    {
        let mut k: usize = i;
        while k < self.len && is_digit_char(self.chars[k])
            invariant
                self.wf(),
                i <= k <= self.len,
                digits_end(self.text(), i as int) == digits_end(self.text(), k as int),
            decreases self.len - k,
        {
            k = k + 1;
        }
        k
    }

    /// Reads the next token. At the end of the text it returns `EOF`, and
    /// keeps doing so; on an unrecognised character it returns `None`.
    pub fn next(&mut self) -> (r: Option<Token>)
        requires
            old(self).wf(),
        ensures
            final(self).wf(),
            final(self).text() == old(self).text(),
            match token_at(old(self).text(), old(self).position()) {
                None => r is None,
                Some((t, j)) => r is Some && r->0@ == t && final(self).position() == j,
            },
            r is None ==> old(self).remaining() == Seq::<Tok>::empty() && *final(self) == *old(self),
            r is Some && r->0@ is EOF ==> old(self).remaining() == seq![Tok::EOF],
            r is Some && !(r->0@ is EOF) ==> old(self).remaining() == seq![r->0@]
                + final(self).remaining(),
    {
        let mut j: usize = self.pos;
        while j < self.len && is_space_char(self.chars[j])
            invariant
                self.wf(),
                old(self).pos <= j <= self.len,
                skip_space(self.text(), old(self).pos as int) == skip_space(self.text(), j as int),
            decreases self.len - j,
        {
            j = j + 1;
        }
        if j >= self.len {
            self.pos = j;
            return Some(Token::EOF);
        }
        let c = self.chars[j];
        let sym = symbol_token(c);
        match sym {
            Some(t) => {
                self.pos = j + 1;
                Some(t)
            },
            None => {
                if is_digit_char(c) {
                    let mut e = self.scan_digits(j + 1);
                    if e < self.len && e + 1 < self.len && self.chars[e] == '.' && is_digit_char(
                        self.chars[e + 1],
                    ) {
                        e = self.scan_digits(e + 1);
                    }
                    let text = self.text_between(j, e);
                    self.pos = e;
                    Some(Token::Num(text))
                } else {
                    None
                }
            },
        }
    }
}

fn is_space_char(c: char) -> (r: bool)
    ensures
        r == is_space(c),
{
    c == ' ' || c == '\t' || c == '\n' || c == '\r'
}

fn is_digit_char(c: char) -> (r: bool)
    ensures
        r == is_digit(c),
{
    '0' <= c && c <= '9'
}

fn symbol_token(c: char) -> (r: Option<Token>)
    ensures
        match symbol_tok(c) {
            None => r is None,
            Some(t) => r is Some && r->0@ == t,
        },
{
    if c == '+' {
        Some(Token::Add)
    } else if c == '-' {
        Some(Token::Subtract)
    } else if c == '*' {
        Some(Token::Multiply)
    } else if c == '/' {
        Some(Token::Divide)
    } else if c == '^' {
        Some(Token::Power)
    } else if c == '(' {
        Some(Token::LeftParen)
    } else if c == ')' {
        Some(Token::RightParen)
    } else {
        None
    }
}

} // verus!
