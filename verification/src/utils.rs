//! Primitive text combinators: character-class scanners and literal matchers
//! that the grammar rules compose from.
//!
//! Every combinator takes the remaining input and either returns a pair of
//! (remaining input, extracted text) or fails with a descriptive message.
//! Input is only sliced, never mutated.  The specification side models each
//! combinator over the view of the input, a `Seq<char>`.
use vstd::prelude::*;
use vstd::string::StrSliceExecFns;
use vstd::string::StringExecFns;

verus! {

/// A decimal digit `'0'..='9'`.
pub open spec fn is_digit_char(c: char) -> bool {
    48 <= c as u32 && c as u32 <= 57
}

/// An ASCII letter.
pub open spec fn is_alpha_char(c: char) -> bool {
    (65 <= c as u32 && c as u32 <= 90) || (97 <= c as u32 && c as u32 <= 122)
}

/// An ASCII letter or decimal digit.
pub open spec fn is_alnum_char(c: char) -> bool {
    is_alpha_char(c) || is_digit_char(c)
}

/// The whitespace the grammar recognises: space and newline.
pub open spec fn is_ws_char(c: char) -> bool {
    c == ' ' || c == '\n'
}

/// The closed set of character classes that scanners accept by.  The grammar
/// tries its alternatives in a fixed order over this set, so the classes form
/// a small tagged union rather than arbitrary predicates.
#[derive(Clone, Copy, Debug, PartialEq, Eq, Structural)]
pub enum CharPred {
    /// `'0'..='9'`
    Digit,
    /// ASCII letters and digits
    Alnum,
    /// A single space
    Space,
    /// Space or newline
    SpaceNewline,
}

impl CharPred {
    /// What this class means for one character.
    pub open spec fn holds(self, c: char) -> bool {
        match self {
            CharPred::Digit => is_digit_char(c),
            CharPred::Alnum => is_alnum_char(c),
            CharPred::Space => c == ' ',
            CharPred::SpaceNewline => is_ws_char(c),
        }
    }

    /// Decides `self.holds(c)`.
    pub fn check(self, c: char) -> (b: bool)
        ensures
            b == self.holds(c),
    {
        let u = c as u32;
        match self {
            CharPred::Digit => 48 <= u && u <= 57,
            CharPred::Alnum => (65 <= u && u <= 90) || (97 <= u && u <= 122) || (48 <= u && u
                <= 57),
            CharPred::Space => c == ' ',
            CharPred::SpaceNewline => c == ' ' || c == '\n',
        }
    }
}

/// Length of the longest prefix of `s` whose characters all fall in class `p`.
pub open spec fn prefix_len(p: CharPred, s: Seq<char>) -> nat
    decreases s.len(),
{
    if s.len() == 0 || !p.holds(s[0]) {
        0
    } else {
        1 + prefix_len(p, s.skip(1))
    }
}

/// The characterisation of `prefix_len`: it is bounded by the length of the
/// input, every character before it matches, and the character at it (if any)
/// does not.
pub broadcast proof fn lemma_prefix_len(p: CharPred, s: Seq<char>)
    ensures
        #[trigger] prefix_len(p, s) <= s.len(),
        forall|k: int| 0 <= k < prefix_len(p, s) ==> p.holds(s[k]),
        prefix_len(p, s) < s.len() ==> !p.holds(s[prefix_len(p, s) as int]),
    decreases s.len(),
{
    if s.len() == 0 || !p.holds(s[0]) {
    } else {
        lemma_prefix_len(p, s.skip(1));
        assert forall|k: int| 0 <= k < prefix_len(p, s) implies p.holds(s[k]) by {
            if k > 0 {
                assert(p.holds(s.skip(1)[k - 1]));
            }
        }
    }
}

/// What `take_while` returns: the remaining input and the matched prefix.
pub open spec fn sp_take_while(p: CharPred, s: Seq<char>) -> (Seq<char>, Seq<char>) {
    (s.skip(prefix_len(p, s) as int), s.take(prefix_len(p, s) as int))
}

/// Splits `s` at the end of the longest prefix of characters in class `p`,
/// returning (remainder, extracted prefix).
pub fn take_while<'a>(p: CharPred, s: &'a str) -> (r: (&'a str, &'a str))
    ensures
        r.0@ == sp_take_while(p, s@).0,
        r.1@ == sp_take_while(p, s@).1,
{
    let len = s.unicode_len();
    let mut i: usize = 0;
    while i < len && p.check(s.get_char(i))
        invariant
            i <= len,
            len == s@.len(),
            forall|k: int| 0 <= k < i ==> p.holds(s@[k]),
        decreases len - i,
    {
        i = i + 1;
    }
    proof {
        lemma_prefix_len(p, s@);
        assert(i == prefix_len(p, s@));
    }
    let rest = s.substring_char(i, len);
    let got = s.substring_char(0, i);
    proof {
        assert(rest@ =~= sp_take_while(p, s@).0);
        assert(got@ =~= sp_take_while(p, s@).1);
    }
    (rest, got)
}

/// Like `take_while`, but fails with the given message when the matched
/// prefix is empty.
pub fn take_while1<'a>(p: CharPred, s: &'a str, error_message: String) -> (r: Result<
    (&'a str, &'a str),
    String,
>)
    ensures
        prefix_len(p, s@) == 0 ==> (r matches Err(m) && m == error_message),
        prefix_len(p, s@) != 0 ==> (r matches Ok(t) && t.0@ == sp_take_while(p, s@).0 && t.1@
            == sp_take_while(p, s@).1),
{
    let (rest, got) = take_while(p, s);
    if got.unicode_len() == 0 {
        proof {
            lemma_prefix_len(p, s@);
        }
        Err(error_message)
    } else {
        Ok((rest, got))
    }
}

/// What `extract_digits` returns over the view of its input.
pub open spec fn sp_extract_digits(s: Seq<char>) -> Result<(Seq<char>, Seq<char>), Seq<char>> {
    if prefix_len(CharPred::Digit, s) == 0 {
        Err("expected digits"@)
    } else {
        Ok(sp_take_while(CharPred::Digit, s))
    }
}

/// Consumes one or more leading digits, failing on input that does not start
/// with a digit.
pub fn extract_digits(s: &str) -> (r: Result<(&str, &str), String>)
    ensures
        match sp_extract_digits(s@) {
            Ok(t) => r matches Ok(p) && p.0@ == t.0 && p.1@ == t.1,
            Err(m) => r matches Err(e) && e@ == m,
        },
{
    take_while1(CharPred::Digit, s, String::from_str("expected digits"))
}

/// Consumes one leading operator character, returning (remainder, operator).
/// The input must start with one of `+ - * /`.
pub fn extract_op(s: &str) -> (r: (&str, &str))
    requires
        s@.len() > 0,
        s@[0] == '+' || s@[0] == '-' || s@[0] == '*' || s@[0] == '/',
    ensures
        r.0@ == s@.skip(1),
        r.1@ == s@.take(1),
{
    let len = s.unicode_len();
    let rest = s.substring_char(1, len);
    let got = s.substring_char(0, 1);
    proof {
        assert(rest@ =~= s@.skip(1));
        assert(got@ =~= s@.take(1));
    }
    (rest, got)
}

/// What `extract_whitespace` returns over the view of its input.
pub open spec fn sp_extract_ws(s: Seq<char>) -> (Seq<char>, Seq<char>) {
    sp_take_while(CharPred::SpaceNewline, s)
}

/// Consumes optional leading whitespace (spaces and newlines).
pub fn extract_whitespace(s: &str) -> (r: (&str, &str))
    ensures
        r.0@ == sp_extract_ws(s@).0,
        r.1@ == sp_extract_ws(s@).1,
{
    take_while(CharPred::SpaceNewline, s)
}

/// What `extract_whitespace1` returns over the view of its input.
pub open spec fn sp_extract_ws1(s: Seq<char>) -> Result<(Seq<char>, Seq<char>), Seq<char>> {
    if prefix_len(CharPred::SpaceNewline, s) == 0 {
        Err("expected whitespace"@)
    } else {
        Ok(sp_take_while(CharPred::SpaceNewline, s))
    }
}

/// Consumes leading whitespace, failing when there is none.
pub fn extract_whitespace1(s: &str) -> (r: Result<(&str, &str), String>)
    ensures
        match sp_extract_ws1(s@) {
            Ok(t) => r matches Ok(p) && p.0@ == t.0 && p.1@ == t.1,
            Err(m) => r matches Err(e) && e@ == m,
        },
{
    take_while1(CharPred::SpaceNewline, s, String::from_str("expected whitespace"))
}

/// What `extract_ident` returns over the view of its input: an identifier
/// starts with a letter and continues with letters and digits.
pub open spec fn sp_extract_ident(s: Seq<char>) -> Result<(Seq<char>, Seq<char>), Seq<char>> {
    if s.len() > 0 && is_alpha_char(s[0]) {
        Ok(sp_take_while(CharPred::Alnum, s))
    } else {
        Err("expected identifier"@)
    }
}

/// Consumes a leading identifier, failing on input that does not start with a
/// letter.
pub fn extract_ident(s: &str) -> (r: Result<(&str, &str), String>)
    ensures
        match sp_extract_ident(s@) {
            Ok(t) => r matches Ok(p) && p.0@ == t.0 && p.1@ == t.1,
            Err(m) => r matches Err(e) && e@ == m,
        },
        sp_extract_ident(s@) matches Ok(t) ==> t.1.len() >= 1 && t.0.len() < s@.len(),
{
    proof {
        lemma_prefix_len(CharPred::Alnum, s@);
    }
    let len = s.unicode_len();
    let starts_alpha = if len == 0 {
        false
    } else {
        let c = s.get_char(0);
        let u = c as u32;
        (65 <= u && u <= 90) || (97 <= u && u <= 122)
    };
    if starts_alpha {
        Ok(take_while(CharPred::Alnum, s))
    } else {
        Err(String::from_str("expected identifier"))
    }
}

/// The character for one decimal digit.
pub open spec fn digit_char(d: nat) -> char {
    if d == 0 {
        '0'
    } else if d == 1 {
        '1'
    } else if d == 2 {
        '2'
    } else if d == 3 {
        '3'
    } else if d == 4 {
        '4'
    } else if d == 5 {
        '5'
    } else if d == 6 {
        '6'
    } else if d == 7 {
        '7'
    } else if d == 8 {
        '8'
    } else {
        '9'
    }
}

/// The decimal rendering of a natural number, most significant digit first.
pub open spec fn dec_str(n: nat) -> Seq<char>
    decreases n,
{
    if n < 10 {
        seq![digit_char(n)]
    } else {
        dec_str(n / 10) + seq![digit_char(n % 10)]
    }
}

/// One decimal digit as text.
fn digit_str(d: usize) -> (r: &'static str)
    requires
        d < 10,
    ensures
        r@ == seq![digit_char(d as nat)],
{
    proof {
        reveal_strlit("0");
        reveal_strlit("1");
        reveal_strlit("2");
        reveal_strlit("3");
        reveal_strlit("4");
        reveal_strlit("5");
        reveal_strlit("6");
        reveal_strlit("7");
        reveal_strlit("8");
        reveal_strlit("9");
    }
    let r = match d {
        0 => "0",
        1 => "1",
        2 => "2",
        3 => "3",
        4 => "4",
        5 => "5",
        6 => "6",
        7 => "7",
        8 => "8",
        _ => "9",
    };
    proof {
        assert(r@ =~= seq![digit_char(d as nat)]);
    }
    r
}

/// Renders a number in decimal, for use inside failure messages.
pub fn dec_string(n: usize) -> (r: String)
    ensures
        r@ == dec_str(n as nat),
    decreases n,
{
    if n < 10 {
        String::from_str(digit_str(n))
    } else {
        let mut s = dec_string(n / 10);
        s.append(digit_str(n % 10));
        proof {
            assert(s@ =~= dec_str(n as nat));
        }
        s
    }
}

/// The failure message of `tag`: the word `expected` followed by the literal.
pub open spec fn msg_expected(lit: Seq<char>) -> Seq<char> {
    "expected "@ + lit
}

/// What `tag` returns over the views of its inputs.
pub open spec fn sp_tag(lit: Seq<char>, s: Seq<char>) -> Result<Seq<char>, Seq<char>> {
    if lit.len() <= s.len() && s.take(lit.len() as int) == lit {
        Ok(s.skip(lit.len() as int))
    } else {
        Err(msg_expected(lit))
    }
}

/// Consumes the exact literal `starting_text` from the front of `s`, failing
/// with a message that names the literal.
pub fn tag<'a, 'b>(starting_text: &'a str, s: &'b str) -> (r: Result<&'b str, String>)
    ensures
        match sp_tag(starting_text@, s@) {
            Ok(t) => r matches Ok(p) && p@ == t,
            Err(m) => r matches Err(e) && e@ == m,
        },
{
    let tl = starting_text.unicode_len();
    let sl = s.unicode_len();
    if tl <= sl {
        let mut i: usize = 0;
        let mut same = true;
        while same && i < tl
            invariant
                i <= tl,
                tl == starting_text@.len(),
                sl == s@.len(),
                tl <= sl,
                same ==> forall|k: int| 0 <= k < i ==> s@[k] == starting_text@[k],
                !same ==> exists|k: int| 0 <= k < tl && s@[k] != starting_text@[k],
            decreases (if same {
                1int
            } else {
                0int
            }), tl - i,
        {
            if s.get_char(i) != starting_text.get_char(i) {
                same = false;
            } else {
                i = i + 1;
            }
        }
        if same {
            let rest = s.substring_char(tl, sl);
            proof {
                assert(s@.take(tl as int) =~= starting_text@);
                assert(rest@ =~= s@.skip(tl as int));
            }
            Ok(rest)
        } else {
            proof {
                assert(s@.take(tl as int) != starting_text@);
            }
            let mut m = String::from_str("expected ");
            m.append(starting_text);
            Err(m)
        }
    } else {
        let mut m = String::from_str("expected ");
        m.append(starting_text);
        Err(m)
    }
}

} // verus!
