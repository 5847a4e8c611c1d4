//! Text helpers shared by the scene model, the code generator and the renderer:
//! string equality, character pushes, escaping for Python string literals,
//! identifier sanitising, and decimal / hexadecimal rendering of integers.

use vstd::prelude::*;
use vstd::string::{StrSliceExecFns, StringExecFns};

verus! {

/// `str == str` compares the two strings character by character.
pub assume_specification[ <str as PartialEq>::eq ](a: &str, b: &str) -> (r: bool)
    ensures
        r == (a@ == b@),
;

/// Wraps `String::push`: appends one character at the end of the string.
#[verifier::external_body]
pub fn push_char(s: &mut String, c: char)
    ensures
        final(s)@ == old(s)@.push(c),
{
    s.push(c);
}

/// Whether `char::is_alphanumeric` holds of `c` (Unicode `Alphabetic` or `Numeric`).
pub uninterp spec fn char_is_alphanumeric(c: char) -> bool;

/// An ASCII letter or an ASCII digit.
pub open spec fn is_ascii_alphanumeric(c: char) -> bool {
    ('a' <= c && c <= 'z') || ('A' <= c && c <= 'Z') || ('0' <= c && c <= '9')
}

/// Wraps `char::is_alphanumeric`. Its result is named by `char_is_alphanumeric`;
/// the documentation fixes it on ASCII: there it holds exactly of letters and digits.
/// What it gives on other characters rests on Unicode tables and is left unsaid.
#[verifier::external_body]
pub fn is_alphanumeric(c: char) -> (r: bool)
    ensures
        r == char_is_alphanumeric(c),
        (c as u32) < 128 ==> (r == is_ascii_alphanumeric(c)),
{
    c.is_alphanumeric()
}

/// `char::to_ascii_lowercase`: ASCII capitals become small letters, all else is kept.
pub open spec fn ascii_lower(c: char) -> char {
    if 'A' <= c && c <= 'Z' {
        (((c as u32) + 32) as u8) as char
    } else {
        c
    }
}

/// Wraps `char::to_ascii_lowercase`, whose documentation says that it maps
/// `A`..`Z` to `a`..`z` and leaves every other character unchanged.
#[verifier::external_body]
pub fn to_ascii_lowercase(c: char) -> (r: char)
    ensures
        r == ascii_lower(c),
{
    c.to_ascii_lowercase()
}

// ─── Escaping ───────────────────────────────────────────────────────────────

/// What one character becomes inside a double-quoted Python literal:
/// a quote is preceded by a backslash, a newline becomes backslash-n.
pub open spec fn escape_char(c: char) -> Seq<char> {
    if c == '"' {
        seq!['\\', '"']
    } else if c == '\n' {
        seq!['\\', 'n']
    } else {
        seq![c]
    }
}

/// `s` with every quote and newline escaped, the other characters kept in order.
pub open spec fn escaped(s: Seq<char>) -> Seq<char>
    decreases s.len(),
{
    if s.len() == 0 {
        Seq::empty()
    } else {
        escaped(s.drop_last()) + escape_char(s.last())
    }
}

/// Escapes quotes and newlines so that `s` can stand between double quotes
/// in generated Python.
pub fn escape_str(s: &str) -> (r: String)
    ensures
        r@ == escaped(s@),
{
    let n = s.unicode_len();
    let mut out = String::new();
    let mut i: usize = 0;
    while i < n
        invariant
            n == s@.len(),
            i <= n,
            out@ == escaped(s@.take(i as int)),
        decreases n - i,
    {
        let c = s.get_char(i);
        assert(s@.take(i + 1).drop_last() =~= s@.take(i as int));
        if c == '"' {
            push_char(&mut out, '\\');
            push_char(&mut out, '"');
        } else if c == '\n' {
            push_char(&mut out, '\\');
            push_char(&mut out, 'n');
        } else {
            push_char(&mut out, c);
        }
        assert(out@ =~= escaped(s@.take(i + 1)));
        i += 1;
    }
    assert(s@.take(n as int) =~= s@);
    out
}

/// An escaped string holds no line break, and every quote in it directly
/// follows a backslash.
pub proof fn law_escaped_quotes_and_lines(s: Seq<char>)
    ensures
        forall|i: int| 0 <= i < escaped(s).len() ==> #[trigger] escaped(s)[i] != '\n',
        forall|i: int| 0 <= i < escaped(s).len() && #[trigger] escaped(s)[i] == '"' ==> i > 0 && escaped(s)[i - 1] == '\\',
    decreases s.len(),
{
    if s.len() > 0 {
        let p = s.drop_last();
        law_escaped_quotes_and_lines(p);
        let e = escaped(s);
        let ep = escaped(p);
        assert(e == ep + escape_char(s.last()));
        assert forall|i: int| 0 <= i < e.len() implies #[trigger] e[i] != '\n' by {
            if i < ep.len() {
                assert(e[i] == ep[i]);
            }
        }
        assert forall|i: int| 0 <= i < e.len() && #[trigger] e[i] == '"' implies i > 0 && e[i - 1] == '\\' by {
            if i < ep.len() {
                assert(e[i] == ep[i]);
                assert(e[i - 1] == ep[i - 1]);
            }
        }
    }
}

// ─── Identifiers ────────────────────────────────────────────────────────────

/// `c` is a letter or a digit: on ASCII exactly `a`..`z`, `A`..`Z` and
/// `0`..`9`, elsewhere what `char::is_alphanumeric` says.
pub open spec fn alnum(c: char) -> bool {
    if (c as u32) < 128 {
        is_ascii_alphanumeric(c)
    } else {
        char_is_alphanumeric(c)
    }
}

/// Whether `char::is_numeric` holds of `c` (Unicode `Nd`, `Nl` or `No`).
pub uninterp spec fn char_is_numeric(c: char) -> bool;

/// `c` is a number character: on ASCII exactly `0`..`9`, elsewhere what
/// `char::is_numeric` says.
pub open spec fn numeric(c: char) -> bool {
    if (c as u32) < 128 {
        '0' <= c && c <= '9'
    } else {
        char_is_numeric(c)
    }
}

/// Wraps `char::is_numeric`. Its result is named by `char_is_numeric`; the
/// documentation fixes it on ASCII: there it holds exactly of the digits.
/// What it gives on other characters rests on Unicode tables and is left unsaid.
#[verifier::external_body]
pub fn is_numeric(c: char) -> (r: bool)
    ensures
        r == char_is_numeric(c),
        (c as u32) < 128 ==> (r == ('0' <= c && c <= '9')),
{
    c.is_numeric()
}

/// A name character kept in a Python identifier: letters, digits and `_` stay
/// (ASCII capitals lowered), anything else becomes `_`.
pub open spec fn ident_char(c: char) -> char {
    if alnum(c) || c == '_' {
        ascii_lower(c)
    } else {
        '_'
    }
}

pub open spec fn identifier(s: Seq<char>) -> Seq<char> {
    s.map_values(|c: char| ident_char(c))
}

/// A Python keyword written in small letters (the only ones an identifier
/// made by `identifier` can be).
pub open spec fn is_python_keyword(s: Seq<char>) -> bool {
    s == "and"@
        || s == "as"@
        || s == "assert"@
        || s == "async"@
        || s == "await"@
        || s == "break"@
        || s == "class"@
        || s == "continue"@
        || s == "def"@
        || s == "del"@
        || s == "elif"@
        || s == "else"@
        || s == "except"@
        || s == "finally"@
        || s == "for"@
        || s == "from"@
        || s == "global"@
        || s == "if"@
        || s == "import"@
        || s == "in"@
        || s == "is"@
        || s == "lambda"@
        || s == "nonlocal"@
        || s == "not"@
        || s == "or"@
        || s == "pass"@
        || s == "raise"@
        || s == "return"@
        || s == "try"@
        || s == "while"@
        || s == "with"@
        || s == "yield"@
}

/// A safe Python variable name for `s`: `identifier(s)`, with `_` in front
/// when that would be empty, would start with a number character, or would be
/// a keyword.
pub open spec fn variable_name(s: Seq<char>) -> Seq<char> {
    let m = identifier(s);
    if m.len() == 0 || numeric(m[0]) || is_python_keyword(m) {
        seq!['_'] + m
    } else {
        m
    }
}

/// A variable name made from `s` has one character per character of `s`, and
/// no ASCII capital letter.
pub proof fn law_identifier_shape(s: Seq<char>)
    ensures
        identifier(s).len() == s.len(),
        forall|i: int| 0 <= i < s.len() ==> !('A' <= #[trigger] identifier(s)[i] && identifier(s)[i] <= 'Z'),
        forall|i: int| 0 <= i < s.len() ==> #[trigger] identifier(s)[i] == '_' || alnum(identifier(s)[i]),
{
    assert forall|i: int| 0 <= i < s.len() implies !('A' <= #[trigger] identifier(s)[i] && identifier(s)[i] <= 'Z')
        && (identifier(s)[i] == '_' || alnum(identifier(s)[i])) by {
        let c = s[i];
        assert(identifier(s)[i] == ident_char(c));
        if 'A' <= c && c <= 'Z' {
            let v: int = (c as u32) + 32;
            assert(65 <= c as u32 <= 90);
            assert(97 <= v <= 122);
        }
    }
}

/// A variable name is never empty, does not start with a number character,
/// is no keyword, holds only letters, digits and `_`, and no ASCII capital.
pub proof fn law_variable_name_is_safe(s: Seq<char>)
    ensures
        variable_name(s).len() > 0,
        !numeric(variable_name(s)[0]),
        !is_python_keyword(variable_name(s)),
        forall|i: int| 0 <= i < variable_name(s).len() ==> #[trigger] variable_name(s)[i] == '_' || alnum(variable_name(s)[i]),
        forall|i: int| 0 <= i < variable_name(s).len() ==> !('A' <= #[trigger] variable_name(s)[i] && variable_name(s)[i] <= 'Z'),
{
    law_identifier_shape(s);
    let m = identifier(s);
    let v = variable_name(s);
    if m.len() == 0 || numeric(m[0]) || is_python_keyword(m) {
        assert(v[0] == '_');
        assert forall|i: int| 0 < i < v.len() implies v[i] == m[i - 1] by {}
        lemma_keywords_start_with_letter();
        assert(!is_python_keyword(v));
    }
}

/// Every keyword starts with a small ASCII letter.
proof fn lemma_keywords_start_with_letter()
    ensures
        forall|s: Seq<char>| #[trigger] is_python_keyword(s) ==> s.len() > 0 && 'a' <= s[0] && s[0] <= 'z',
{
    reveal_strlit("and");
    reveal_strlit("as");
    reveal_strlit("assert");
    reveal_strlit("async");
    reveal_strlit("await");
    reveal_strlit("break");
    reveal_strlit("class");
    reveal_strlit("continue");
    reveal_strlit("def");
    reveal_strlit("del");
    reveal_strlit("elif");
    reveal_strlit("else");
    reveal_strlit("except");
    reveal_strlit("finally");
    reveal_strlit("for");
    reveal_strlit("from");
    reveal_strlit("global");
    reveal_strlit("if");
    reveal_strlit("import");
    reveal_strlit("in");
    reveal_strlit("is");
    reveal_strlit("lambda");
    reveal_strlit("nonlocal");
    reveal_strlit("not");
    reveal_strlit("or");
    reveal_strlit("pass");
    reveal_strlit("raise");
    reveal_strlit("return");
    reveal_strlit("try");
    reveal_strlit("while");
    reveal_strlit("with");
    reveal_strlit("yield");
}

/// Whether `s` is a keyword written in small letters.
fn is_keyword(s: &str) -> (r: bool)
    ensures
        r == is_python_keyword(s@),
{
    s.eq("and")
        || s.eq("as")
        || s.eq("assert")
        || s.eq("async")
        || s.eq("await")
        || s.eq("break")
        || s.eq("class")
        || s.eq("continue")
        || s.eq("def")
        || s.eq("del")
        || s.eq("elif")
        || s.eq("else")
        || s.eq("except")
        || s.eq("finally")
        || s.eq("for")
        || s.eq("from")
        || s.eq("global")
        || s.eq("if")
        || s.eq("import")
        || s.eq("in")
        || s.eq("is")
        || s.eq("lambda")
        || s.eq("nonlocal")
        || s.eq("not")
        || s.eq("or")
        || s.eq("pass")
        || s.eq("raise")
        || s.eq("return")
        || s.eq("try")
        || s.eq("while")
        || s.eq("with")
        || s.eq("yield")
}

/// The safe Python variable name for `s`, as `variable_name` says.
pub fn to_variable_name(s: &str) -> (r: String)
    ensures
        r@ == variable_name(s@),
{
    let m = to_identifier(s);
    let n = m.as_str().unicode_len();
    let needs_prefix = if n == 0 {
        true
    } else {
        is_numeric(m.as_str().get_char(0)) || is_keyword(m.as_str())
    };
    if needs_prefix {
        let mut out = String::new();
        push_char(&mut out, '_');
        out.append(m.as_str());
        assert(out@ =~= seq!['_'] + m@);
        out
    } else {
        m
    }
}

/// Maps every character of `s` through `ident_char`.
pub fn to_identifier(s: &str) -> (r: String)
    ensures
        r@ == identifier(s@),
{
    let n = s.unicode_len();
    let mut out = String::new();
    let mut i: usize = 0;
    while i < n
        invariant
            n == s@.len(),
            i <= n,
            out@ =~= identifier(s@.take(i as int)),
        decreases n - i,
    {
        let c = s.get_char(i);
        let keep = is_alphanumeric(c) || c == '_';
        let d = if keep { to_ascii_lowercase(c) } else { '_' };
        push_char(&mut out, d);
        assert(identifier(s@.take(i + 1)) =~= identifier(s@.take(i as int)).push(d));
        i += 1;
    }
    assert(s@.take(n as int) =~= s@);
    out
}

// ─── Numbers ────────────────────────────────────────────────────────────────

/// The lower-case hexadecimal digit for `d < 16`.
pub open spec fn hex_digit(d: nat) -> char {
    if d < 10 {
        ((d + 48) as u8) as char
    } else {
        ((d + 87) as u8) as char
    }
}

/// `n` in lower-case hexadecimal, without leading zeros (`0` for zero), as `{:x}` prints it.
pub open spec fn hex(n: nat) -> Seq<char>
    decreases n,
{
    if n < 16 {
        seq![hex_digit(n)]
    } else {
        hex(n / 16).push(hex_digit(n % 16))
    }
}

/// `n` in decimal, without leading zeros (`0` for zero), as `{}` prints it.
pub open spec fn decimal(n: nat) -> Seq<char>
    decreases n,
{
    if n < 10 {
        seq![hex_digit(n)]
    } else {
        decimal(n / 10).push(hex_digit(n % 10))
    }
}

proof fn lemma_decimal_len(n: nat)
    ensures
        decimal(n).len() >= 1,
        n >= 10 ==> decimal(n).len() >= 2,
    decreases n,
{
    if n >= 10 {
        lemma_decimal_len(n / 10);
    }
}

/// Decimal printing has at least one digit, and different numbers print
/// differently.
pub proof fn law_decimal_injective(n: nat, m: nat)
    ensures
        decimal(n).len() >= 1,
        decimal(n) == decimal(m) ==> n == m,
    decreases n,
{
    lemma_decimal_len(n);
    lemma_decimal_len(m);
    if decimal(n) == decimal(m) && n != m {
        if n < 10 && m < 10 {
            assert(decimal(n)[0] == hex_digit(n));
            assert(decimal(m)[0] == hex_digit(m));
            assert(hex_digit(n) as u32 == n + 48);
            assert(hex_digit(m) as u32 == m + 48);
        } else if n >= 10 && m >= 10 {
            law_decimal_injective(n / 10, m / 10);
            assert(decimal(n).last() == hex_digit(n % 10));
            assert(decimal(m).last() == hex_digit(m % 10));
            assert(hex_digit(n % 10) as u32 == n % 10 + 48);
            assert(hex_digit(m % 10) as u32 == m % 10 + 48);
            assert(decimal(n).drop_last() == decimal(n / 10));
            assert(decimal(m).drop_last() == decimal(m / 10));
        }
    }
}

fn digit_char(d: u128) -> (c: char)
    requires
        d < 16,
    ensures
        c == hex_digit(d as nat),
{
    let small: u8 = d as u8;
    if small < 10 {
        (small + 48) as char
    } else {
        (small + 87) as char
    }
}

/// Appends `n` in hexadecimal.
pub fn push_hex(out: &mut String, n: u64)
    ensures
        final(out)@ == old(out)@ + hex(n as nat),
    decreases n,
{
    if n >= 16 {
        push_hex(out, n / 16);
    }
    push_char(out, digit_char((n % 16) as u128));
}

/// Appends `n` in decimal.
pub fn push_decimal(out: &mut String, n: u128)
    ensures
        final(out)@ == old(out)@ + decimal(n as nat),
    decreases n,
{
    if n >= 10 {
        push_decimal(out, n / 10);
    }
    push_char(out, digit_char(n % 10));
}

/// `list` joined with `sep` between neighbours, as `[..].join(sep)` does.
pub open spec fn joined(list: Seq<Seq<char>>, sep: Seq<char>) -> Seq<char>
    decreases list.len(),
{
    if list.len() == 0 {
        Seq::empty()
    } else if list.len() == 1 {
        list[0]
    } else {
        joined(list.drop_last(), sep) + sep + list.last()
    }
}

pub open spec fn views(list: Seq<String>) -> Seq<Seq<char>> {
    list.map_values(|s: String| s@)
}

/// Joins the strings of `list` with `sep` between neighbours.
pub fn join(list: &Vec<String>, sep: &str) -> (r: String)
    ensures
        r@ == joined(views(list@), sep@),
{
    let mut out = String::new();
    let mut i: usize = 0;
    while i < list.len()
        invariant
            i <= list.len(),
            out@ == joined(views(list@.take(i as int)), sep@),
        decreases list.len() - i,
    {
        assert(views(list@.take(i + 1)).drop_last() =~= views(list@.take(i as int)));
        if i != 0 {
            out.append(sep);
        }
        out.append(list[i].as_str());
        i += 1;
    }
    assert(list@.take(list.len() as int) =~= list@);
    out
}

} // verus!
