//! Small string helpers shared by the crate: character-level trimming,
//! first-line extraction, prefix-taking and decimal rendering, together with
//! the two trusted wrappers around std string primitives they build on.

use vstd::prelude::*;
use vstd::string::StrSliceExecFns;
use vstd::string::StringExecFns;

verus! {

/// Relies on str's `PartialEq`: equality of the character sequences.
#[verifier::external_body]
pub(crate) fn str_eq(a: &str, b: &str) -> (r: bool)
    ensures
        r <==> a@ == b@,
{
    a == b
}

/// Relies on `String::push`: appends exactly one character.
#[verifier::external_body]
pub(crate) fn push_char(s: &mut String, c: char)
    ensures
        final(s)@ == old(s)@.push(c),
{
    s.push(c);
}

/// ASCII whitespace, the class this crate trims around text.
pub open spec fn is_space_char(c: char) -> bool {
    c == ' ' || c == '\t' || c == '\n' || c == '\r' || c == '\u{b}' || c == '\u{c}'
}

/// Executable form of `is_space_char`.
pub fn is_space(c: char) -> (r: bool)
    ensures
        r == is_space_char(c),
{
    c == ' ' || c == '\t' || c == '\n' || c == '\r' || c == '\u{b}' || c == '\u{c}'
}

/// The sequence with its leading whitespace removed.
pub open spec fn trim_start_spec(s: Seq<char>) -> Seq<char>
    decreases s.len(),
{
    if s.len() > 0 && is_space_char(s.first()) {
        trim_start_spec(s.drop_first())
    } else {
        s
    }
}

/// The sequence with its trailing whitespace removed.
pub open spec fn trim_end_spec(s: Seq<char>) -> Seq<char>
    decreases s.len(),
{
    if s.len() > 0 && is_space_char(s.last()) {
        trim_end_spec(s.drop_last())
    } else {
        s
    }
}

/// The sequence with whitespace removed from both ends.
pub open spec fn trimmed_spec(s: Seq<char>) -> Seq<char> {
    trim_end_spec(trim_start_spec(s))
}

/// Remove leading and trailing whitespace from a string slice.
pub fn trim_str<'a>(s: &'a str) -> (r: &'a str)
    ensures
        r@ == trimmed_spec(s@),
{
    let mut t: &str = s;
    loop
        invariant
            trim_start_spec(t@) == trim_start_spec(s@),
        ensures
            t@ == trim_start_spec(s@),
        decreases t@.len(),
    {
        let n = t.unicode_len();
        if n > 0 && is_space(t.get_char(0)) {
            assert(t@.drop_first() == t@.subrange(1, t@.len() as int));
            t = t.substring_char(1, n);
        } else {
            break ;
        }
    }
    let ghost start_trimmed = t@;
    loop
        invariant
            trim_end_spec(t@) == trim_end_spec(start_trimmed),
        ensures
            t@ == trim_end_spec(start_trimmed),
        decreases t@.len(),
    {
        let n = t.unicode_len();
        if n > 0 && is_space(t.get_char(n - 1)) {
            assert(t@.drop_last() == t@.subrange(0, t@.len() - 1));
            t = t.substring_char(0, n - 1);
        } else {
            break ;
        }
    }
    t
}

/// The prefix of `s` up to but not including its first newline; all of `s`
/// when it has none.
pub open spec fn first_line_spec(s: Seq<char>) -> Seq<char>
    decreases s.len(),
{
    if s.len() == 0 {
        s
    } else if s.first() == '\n' {
        Seq::<char>::empty()
    } else {
        seq![s.first()] + first_line_spec(s.drop_first())
    }
}

/// The first line of a string slice.
pub fn first_line<'a>(s: &'a str) -> (r: &'a str)
    ensures
        r@ == first_line_spec(s@),
{
    let n = s.unicode_len();
    let mut i: usize = 0;
    while i < n && s.get_char(i) != '\n'
        invariant
            0 <= i <= n == s@.len(),
            forall|k: int| 0 <= k < i ==> s@[k] != '\n',
        decreases n - i,
    {
        i = i + 1;
    }
    proof {
        lemma_first_line_prefix(s@, i as int);
    }
    s.substring_char(0, i)
}

/// When the first `i` characters hold no newline and either the string ends
/// there or character `i` is a newline, the first line is exactly that prefix.
proof fn lemma_first_line_prefix(s: Seq<char>, i: int)
    requires
        0 <= i <= s.len(),
        forall|k: int| 0 <= k < i ==> s[k] != '\n',
        i < s.len() ==> s[i] == '\n',
    ensures
        first_line_spec(s) == s.subrange(0, i),
    decreases s.len(),
{
    if s.len() == 0 {
        assert(s.subrange(0, 0) =~= s);
    } else if s.first() == '\n' {
        assert(s.subrange(0, 0) =~= Seq::<char>::empty());
    } else {
        lemma_first_line_prefix(s.drop_first(), i - 1);
        assert(s.drop_first().subrange(0, i - 1) =~= s.subrange(1, i));
        assert(seq![s.first()] + s.subrange(1, i) =~= s.subrange(0, i));
    }
}

/// At most the first `n` characters of a string slice.
pub fn prefix_chars<'a>(s: &'a str, n: usize) -> (r: &'a str)
    ensures
        r@ == s@.take(if n <= s@.len() {
            n as int
        } else {
            s@.len() as int
        }),
{
    let len = s.unicode_len();
    let upto = if n <= len {
        n
    } else {
        len
    };
    let r = s.substring_char(0, upto);
    assert(r@ =~= s@.take(upto as int));
    r
}

/// Removing trailing whitespace leaves a prefix of the original.
pub proof fn lemma_trim_end_prefix(s: Seq<char>)
    ensures
        trim_end_spec(s) == s.take(trim_end_spec(s).len() as int),
        trim_end_spec(s).len() <= s.len(),
    decreases s.len(),
{
    if s.len() > 0 && is_space_char(s.last()) {
        lemma_trim_end_prefix(s.drop_last());
        assert(s.drop_last().take(trim_end_spec(s).len() as int) =~= s.take(
            trim_end_spec(s).len() as int,
        ));
    } else {
        assert(s.take(s.len() as int) =~= s);
    }
}

/// A sequence that does not start with whitespace is untouched by
/// `trim_start_spec`.
pub proof fn lemma_trim_start_noop(s: Seq<char>)
    requires
        s.len() == 0 || !is_space_char(s.first()),
    ensures
        trim_start_spec(s) == s,
{
}

/// Removing leading whitespace leaves a sequence that does not start with
/// whitespace, and `trim_end_spec` keeps the first character.
pub proof fn lemma_trimmed_starts_nonspace(s: Seq<char>)
    ensures
        trim_start_spec(s).len() > 0 ==> !is_space_char(trim_start_spec(s).first()),
        trimmed_spec(s).len() > 0 ==> !is_space_char(trimmed_spec(s).first()),
    decreases s.len(),
{
    if s.len() > 0 && is_space_char(s.first()) {
        lemma_trimmed_starts_nonspace(s.drop_first());
    } else {
        lemma_trim_end_prefix(trim_start_spec(s));
    }
}

/// The first line of a sequence is a prefix of it.
pub proof fn lemma_first_line_is_prefix(s: Seq<char>)
    ensures
        first_line_spec(s) == s.take(first_line_spec(s).len() as int),
        first_line_spec(s).len() <= s.len(),
    decreases s.len(),
{
    if s.len() == 0 {
        assert(s.take(0) =~= s);
    } else if s.first() == '\n' {
        assert(s.take(0) =~= Seq::<char>::empty());
    } else {
        lemma_first_line_is_prefix(s.drop_first());
        let l = first_line_spec(s);
        assert(l == seq![s.first()] + first_line_spec(s.drop_first()));
        assert(s.drop_first().take(first_line_spec(s.drop_first()).len() as int) =~= s.subrange(
            1,
            l.len() as int,
        ));
        assert(l =~= s.take(l.len() as int));
    }
}

/// Lexicographic order on character sequences, by code point. For valid
/// UTF-8 this agrees with the byte-wise order std uses on strings.
pub open spec fn lex_le(a: Seq<char>, b: Seq<char>) -> bool
    decreases a.len(),
{
    if a.len() == 0 {
        true
    } else if b.len() == 0 {
        false
    } else if a.first() != b.first() {
        a.first() < b.first()
    } else {
        lex_le(a.drop_first(), b.drop_first())
    }
}

/// The lexicographic order is total.
pub proof fn lemma_lex_le_total(a: Seq<char>, b: Seq<char>)
    ensures
        lex_le(a, b) || lex_le(b, a),
    decreases a.len(),
{
    if a.len() > 0 && b.len() > 0 && a.first() == b.first() {
        lemma_lex_le_total(a.drop_first(), b.drop_first());
    }
}

/// The lexicographic order is transitive.
pub proof fn lemma_lex_le_trans(a: Seq<char>, b: Seq<char>, c: Seq<char>)
    requires
        lex_le(a, b),
        lex_le(b, c),
    ensures
        lex_le(a, c),
    decreases a.len(),
{
    if a.len() > 0 {
        assert(b.len() > 0);
        assert(c.len() > 0);
        if a.first() == b.first() && b.first() == c.first() {
            lemma_lex_le_trans(a.drop_first(), b.drop_first(), c.drop_first());
        }
    }
}

/// Compare two string slices in lexicographic order of their characters.
pub fn str_lex_le(a: &str, b: &str) -> (r: bool)
    ensures
        r == lex_le(a@, b@),
{
    let an = a.unicode_len();
    let bn = b.unicode_len();
    let mut i: usize = 0;
    proof {
        assert(a@.skip(0) =~= a@);
        assert(b@.skip(0) =~= b@);
    }
    loop
        invariant
            0 <= i <= an == a@.len(),
            i <= bn == b@.len(),
            lex_le(a@, b@) == lex_le(a@.skip(i as int), b@.skip(i as int)),
        ensures
            lex_le(a@, b@) == lex_le(a@.skip(i as int), b@.skip(i as int)),
            i == an || i == bn || a@[i as int] != b@[i as int],
        decreases an - i,
    {
        if i == an || i == bn {
            break ;
        }
        if a.get_char(i) != b.get_char(i) {
            break ;
        }
        proof {
            assert(a@.skip(i as int).drop_first() =~= a@.skip(i + 1));
            assert(b@.skip(i as int).drop_first() =~= b@.skip(i + 1));
        }
        i = i + 1;
    }
    if i == an {
        proof {
            assert(a@.skip(i as int).len() == 0);
        }
        true
    } else if i == bn {
        proof {
            assert(b@.skip(i as int).len() == 0 && a@.skip(i as int).len() > 0);
        }
        false
    } else {
        let x = a.get_char(i);
        let y = b.get_char(i);
        proof {
            assert(a@.skip(i as int).first() == a@[i as int]);
            assert(b@.skip(i as int).first() == b@[i as int]);
        }
        x < y
    }
}

/// Two characters are equal up to ASCII case: identical, or the same letter
/// in the two cases.
pub open spec fn chars_eq_ascii_case(x: char, y: char) -> bool {
    let xu = x as u32;
    let yu = y as u32;
    x == y || (65 <= xu <= 90 && yu == xu + 32) || (97 <= xu <= 122 && yu == xu - 32)
}

/// Equality of two character sequences up to ASCII case.
pub open spec fn eq_ascii_case_spec(a: Seq<char>, b: Seq<char>) -> bool {
    a.len() == b.len() && (forall|i: int| 0 <= i < a.len() ==> chars_eq_ascii_case(a[i], b[i]))
}

/// Compare two string slices for equality, ignoring ASCII case.
pub fn eq_ignore_ascii_case(a: &str, b: &str) -> (r: bool)
    ensures
        r == eq_ascii_case_spec(a@, b@),
{
    let n = a.unicode_len();
    if n != b.unicode_len() {
        return false;
    }
    let mut i: usize = 0;
    while i < n
        invariant
            0 <= i <= n == a@.len() == b@.len(),
            forall|k: int| 0 <= k < i ==> chars_eq_ascii_case(a@[k], b@[k]),
        decreases n - i,
    {
        let x = a.get_char(i);
        let y = b.get_char(i);
        let xu = x as u32;
        let yu = y as u32;
        let same = x == y || (65 <= xu && xu <= 90 && yu == xu + 32) || (97 <= xu && xu <= 122
            && yu == xu - 32);
        if !same {
            return false;
        }
        i = i + 1;
    }
    true
}

/// The character for a decimal digit.
pub open spec fn digit_char(d: int) -> char {
    if d == 0 {
        '0'
    } else if d == 1 {
        '1'
    } else if d == 2 {
        '2'
    } else if d == 3 {
        '3'
    } else if d == 4 {
        '4'
    } else if d == 5 {
        '5'
    } else if d == 6 {
        '6'
    } else if d == 7 {
        '7'
    } else if d == 8 {
        '8'
    } else {
        '9'
    }
}

/// Decimal rendering of a non-negative number, most significant digit first.
pub open spec fn dec_rep(n: nat) -> Seq<char>
    decreases n,
{
    if n < 10 {
        seq![digit_char(n as int)]
    } else {
        dec_rep(n / 10).push(digit_char((n % 10) as int))
    }
}

/// Decimal rendering of a possibly negative number.
pub open spec fn int_rep(n: int) -> Seq<char> {
    if n < 0 {
        seq!['-'] + dec_rep((-n) as nat)
    } else {
        dec_rep(n as nat)
    }
}

/// Executable form of `digit_char`.
fn digit_char_exec(d: u64) -> (c: char)
    requires
        d < 10,
    ensures
        c == digit_char(d as int),
{
    if d == 0 {
        '0'
    } else if d == 1 {
        '1'
    } else if d == 2 {
        '2'
    } else if d == 3 {
        '3'
    } else if d == 4 {
        '4'
    } else if d == 5 {
        '5'
    } else if d == 6 {
        '6'
    } else if d == 7 {
        '7'
    } else if d == 8 {
        '8'
    } else {
        '9'
    }
}

/// Render a non-negative number in decimal.
pub fn u64_to_string(n: u64) -> (r: String)
    ensures
        r@ == dec_rep(n as nat),
    decreases n,
{
    if n < 10 {
        let mut s = String::new();
        push_char(&mut s, digit_char_exec(n));
        assert(s@ =~= dec_rep(n as nat));
        s
    } else {
        let mut s = u64_to_string(n / 10);
        push_char(&mut s, digit_char_exec(n % 10));
        s
    }
}

/// Render a signed number in decimal, with a leading minus sign when it is
/// negative.
pub fn i64_to_string(n: i64) -> (r: String)
    ensures
        r@ == int_rep(n as int),
{
    if n >= 0 {
        u64_to_string(n as u64)
    } else {
        let magnitude: u64 = if n == i64::MIN {
            9223372036854775808u64
        } else {
            (-n) as u64
        };
        let mut s = String::new();
        push_char(&mut s, '-');
        let digits = u64_to_string(magnitude);
        s.append(digits.as_str());
        proof {
            assert(s@ =~= seq!['-'] + dec_rep(magnitude as nat));
        }
        s
    }
}

} // verus!
