//! Text helpers: the characters of a string, blank-separated tokens, ASCII
//! lower case and decimal rendering.

use vstd::prelude::*;
use vstd::string::*;

verus! {

/// ASCII white space: space, tab, line feed, form feed, carriage return.
pub open spec fn is_space(c: char) -> bool {
    c == ' ' || c == '\t' || c == '\n' || c == '\x0C' || c == '\r'
}

/// `s[from..to)` is a token of `s`: a run of characters without white space
/// that can be extended neither to the left nor to the right.
pub open spec fn token_at(s: Seq<char>, from: int, to: int) -> bool {
    &&& 0 <= from < to <= s.len()
    &&& forall|k: int| from <= k < to ==> !is_space(#[trigger] s[k])
    &&& (from == 0 || is_space(s[from - 1]))
    &&& (to == s.len() || is_space(s[to]))
}

/// `word` is one of the tokens of `s`.
pub open spec fn has_token(s: Seq<char>, word: Seq<char>) -> bool {
    exists|from: int, to: int| token_at(s, from, to) && #[trigger] s.subrange(from, to) == word
}

/// `s[from..to)` is the first token of `s`: only white space stands before it.
pub open spec fn leading_token_at(s: Seq<char>, from: int, to: int) -> bool {
    &&& token_at(s, from, to)
    &&& forall|k: int| 0 <= k < from ==> is_space(#[trigger] s[k])
}

/// `s` holds nothing but white space.
pub open spec fn is_blank(s: Seq<char>) -> bool {
    forall|k: int| 0 <= k < s.len() ==> is_space(#[trigger] s[k])
}

/// The lower-case form of an ASCII capital; any other character unchanged.
pub open spec fn lower(c: char) -> char {
    if 'A' <= c <= 'Z' {
        ((c as u8 + 32) as u8) as char
    } else {
        c
    }
}

/// `s` with every ASCII capital in lower case.
pub open spec fn lowered(s: Seq<char>) -> Seq<char> {
    Seq::new(s.len(), |i: int| lower(s[i]))
}

/// The character of the decimal digit `d`.
pub open spec fn digit(d: int) -> char {
    ((48 + d) as u8) as char
}

/// The decimal numeral of `n`, without sign or leading zeros.
pub open spec fn decimal(n: nat) -> Seq<char>
    decreases n,
{
    if n < 10 {
        seq![digit(n as int)]
    } else {
        decimal(n / 10).push(digit((n % 10) as int))
    }
}

/// Appends one character. Trusted: `String::push`, which the standard
/// library documents as appending the given character to the end of the
/// string.
#[verifier::external_body]
pub(crate) fn push_char(s: &mut String, c: char)
    ensures
        final(s)@ == old(s)@.push(c),
{
    s.push(c)
}

/// The characters of `s`, in order.
pub fn chars_of(s: &str) -> (out: Vec<char>)
    ensures
        out@ == s@,
{
    let mut out: Vec<char> = Vec::new();
    for c in it: s.chars()
        invariant
            it.seq() == s@,
            out@ == s@.take(it.index() as int),
    {
        out.push(c);
    }
    out
}

/// The string made of the characters `v[from..to)`.
pub fn text_of(v: &Vec<char>, from: usize, to: usize) -> (out: String)
    requires
        from <= to <= v.len(),
    ensures
        out@ == v@.subrange(from as int, to as int),
{
    let mut out = String::new();
    let mut i: usize = from;
    while i < to
        invariant
            from <= i <= to <= v.len(),
            out@ == v@.subrange(from as int, i as int),
        decreases to - i,
    {
        push_char(&mut out, v[i]);
        i += 1;
        assert(v@.subrange(from as int, i as int) == v@.subrange(from as int, i - 1).push(
            v@[i - 1],
        ));
    }
    out
}

/// Whether `c` is ASCII white space.
pub fn space(c: char) -> (b: bool)
    ensures
        b == is_space(c),
{
    c == ' ' || c == '\t' || c == '\n' || c == '\x0C' || c == '\r'
}

/// Whether `hay[from..to)` spells `word`.
pub fn spells(hay: &Vec<char>, from: usize, to: usize, word: &Vec<char>) -> (b: bool)
    requires
        from <= to <= hay.len(),
    ensures
        b == (hay@.subrange(from as int, to as int) == word@),
{
    if to - from != word.len() {
        return false;
    }
    let mut k: usize = 0;
    while k < word.len()
        invariant
            from <= to <= hay.len(),
            to - from == word.len(),
            k <= word.len(),
            forall|j: int| 0 <= j < k ==> hay@[from + j] == word@[j],
        decreases word.len() - k,
    {
        if hay[from + k] != word[k] {
            assert(hay@.subrange(from as int, to as int)[k as int] != word@[k as int]);
            return false;
        }
        k += 1;
    }
    assert(hay@.subrange(from as int, to as int) =~= word@);
    true
}

/// Whether `a` and `b` hold the same characters.
pub fn same_chars(a: &Vec<char>, b: &Vec<char>) -> (same: bool)
    ensures
        same == (a@ == b@),
{
    let same = spells(a, 0, a.len(), b);
    assert(a@.subrange(0, a@.len() as int) =~= a@);
    same
}

/// The end of the run without white space that starts at `from`.
pub fn run_end(hay: &Vec<char>, from: usize) -> (to: usize)
    requires
        from < hay.len(),
        !is_space(hay@[from as int]),
    ensures
        from < to <= hay.len(),
        forall|k: int| from <= k < to ==> !is_space(#[trigger] hay@[k]),
        to == hay.len() || is_space(hay@[to as int]),
{
    let mut to: usize = from + 1;
    while to < hay.len() && !space(hay[to])
        invariant
            from < to <= hay.len(),
            forall|k: int| from <= k < to ==> !is_space(#[trigger] hay@[k]),
        decreases hay.len() - to,
    {
        to += 1;
    }
    to
}

/// Whether `word` is one of the white-space separated tokens of `hay`.
pub fn contains_token(hay: &Vec<char>, word: &Vec<char>) -> (found: bool)
    ensures
        found == has_token(hay@, word@),
{
    let n: usize = hay.len();
    let mut i: usize = 0;
    while i < n
        invariant
            n == hay.len(),
            i <= n,
            i == 0 || i == n || is_space(hay@[i - 1]),
            forall|a: int, b: int|
                token_at(hay@, a, b) && a < i ==> #[trigger] hay@.subrange(a, b) != word@,
        decreases n - i,
    {
        if space(hay[i]) {
            i += 1;
        } else {
            let j: usize = run_end(hay, i);
            assert(token_at(hay@, i as int, j as int));
            if spells(hay, i, j, word) {
                return true;
            }
            assert forall|a: int, b: int| token_at(hay@, a, b) && a <= j implies #[trigger] hay@.subrange(
                a,
                b,
            ) != word@ by {
                if a == i {
                    assert(b == j) by {
                        if b < j {
                            assert(!is_space(hay@[b]));
                        }
                        if b > j {
                            assert(!is_space(hay@[j as int]));
                        }
                    }
                } else if a > i {
                    assert(!is_space(hay@[a - 1]));
                }
            }
            i = if j < n {
                j + 1
            } else {
                n
            };
        }
    }
    assert forall|a: int, b: int| token_at(hay@, a, b) implies #[trigger] hay@.subrange(a, b)
        != word@ by {}
    false
}

/// The bounds of the first token of `hay`, or `None` where `hay` holds
/// nothing but white space.
pub fn first_token(hay: &Vec<char>) -> (r: Option<(usize, usize)>)
    ensures
        match r {
            Some((from, to)) => leading_token_at(hay@, from as int, to as int),
            None => is_blank(hay@),
        },
{
    let mut i: usize = 0;
    while i < hay.len()
        invariant
            i <= hay.len(),
            forall|k: int| 0 <= k < i ==> is_space(#[trigger] hay@[k]),
        decreases hay.len() - i,
    {
        if !space(hay[i]) {
            let j: usize = run_end(hay, i);
            return Some((i, j));
        }
        i += 1;
    }
    None
}

/// The lower-case form of an ASCII capital; any other character unchanged.
pub fn lower_char(c: char) -> (r: char)
    ensures
        r == lower(c),
{
    if 'A' <= c && c <= 'Z' {
        ((c as u8) + 32) as char
    } else {
        c
    }
}

/// `v` with every ASCII capital in lower case.
pub fn lower_chars(v: &Vec<char>) -> (out: Vec<char>)
    ensures
        out@ == lowered(v@),
{
    let mut out: Vec<char> = Vec::new();
    let mut i: usize = 0;
    while i < v.len()
        invariant
            i <= v.len(),
            out@.len() == i,
            forall|k: int| 0 <= k < i ==> out@[k] == lower(v@[k]),
        decreases v.len() - i,
    {
        out.push(lower_char(v[i]));
        i += 1;
    }
    assert(out@ =~= lowered(v@));
    out
}

/// The decimal numeral of `n` when moved one place to the right: nothing for
/// zero, the numeral otherwise.
pub open spec fn leading_digits(n: nat) -> Seq<char> {
    if n == 0 {
        Seq::empty()
    } else {
        decimal(n)
    }
}

/// A numeral is the numeral of its tenth, followed by its last digit.
pub proof fn lemma_decimal_step(n: nat)
    ensures
        decimal(n) == leading_digits(n / 10).push(digit((n % 10) as int)),
{
    if n < 10 {
        assert(decimal(n) =~= Seq::<char>::empty().push(digit(n as int)));
    }
}

/// The decimal numeral of `n`, as characters.
pub fn decimal_chars(n: u64) -> (out: Vec<char>)
    ensures
        out@ == decimal(n as nat),
{
    // Digits from the last to the first.
    let mut rev: Vec<char> = Vec::new();
    let mut m: u64 = n / 10;
    rev.push(((48 + n % 10) as u8) as char);
    let ghost mut tail: Seq<char> = seq![digit((n % 10) as int)];
    proof {
        lemma_decimal_step(n as nat);
        assert(leading_digits(m as nat).push(digit((n % 10) as int)) =~= leading_digits(m as nat)
            + tail);
    }
    while m > 0
        invariant
            rev@.len() == tail.len(),
            rev@.len() >= 1,
            forall|k: int| 0 <= k < tail.len() ==> tail[k] == #[trigger] rev@[tail.len() - 1 - k],
            decimal(n as nat) == leading_digits(m as nat) + tail,
        decreases m,
    {
        let d: char = ((48 + m % 10) as u8) as char;
        proof {
            lemma_decimal_step(m as nat);
            let grown = seq![d] + tail;
            assert(leading_digits(m as nat) + tail =~= leading_digits((m / 10) as nat) + grown);
            assert forall|k: int| 0 <= k < grown.len() implies grown[k] == #[trigger] rev@.push(
                d,
            )[grown.len() - 1 - k] by {
                if k > 0 {
                    assert(grown[k] == tail[k - 1]);
                    assert(tail[k - 1] == rev@[tail.len() - 1 - (k - 1)]);
                }
            }
            tail = grown;
        }
        rev.push(d);
        m = m / 10;
    }
    let mut out: Vec<char> = Vec::new();
    let mut i: usize = rev.len();
    while i > 0
        invariant
            i <= rev.len(),
            rev@.len() == tail.len(),
            forall|k: int| 0 <= k < tail.len() ==> tail[k] == #[trigger] rev@[tail.len() - 1 - k],
            out@.len() == rev.len() - i,
            forall|k: int| 0 <= k < out@.len() ==> out@[k] == tail[k],
        decreases i,
    {
        i -= 1;
        proof {
            let k = tail.len() - 1 - i;
            assert(tail[k] == rev@[tail.len() - 1 - k]);
        }
        out.push(rev[i]);
    }
    assert(out@ =~= tail);
    assert(leading_digits(0) + tail =~= tail);
    out
}

/// The decimal numeral of `n`, as a string.
pub fn numeral(n: u64) -> (out: String)
    ensures
        out@ == decimal(n as nat),
{
    let digits = decimal_chars(n);
    let out = text_of(&digits, 0, digits.len());
    assert(digits@.subrange(0, digits@.len() as int) =~= digits@);
    out
}

/// `head`, then `body`.
pub fn prefixed(head: &str, body: &str) -> (out: String)
    ensures
        out@ == head@ + body@,
{
    let mut out = String::from_str(head);
    out.append(body);
    out
}

/// `head`, then `body`, then `tail`.
pub fn framed(head: &str, body: &str, tail: &str) -> (out: String)
    ensures
        out@ == head@ + body@ + tail@,
{
    let mut out = String::from_str(head);
    out.append(body);
    out.append(tail);
    out
}

} // verus!
