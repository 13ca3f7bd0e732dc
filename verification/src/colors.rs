//! The colour assigned to each transit line's number badge.

use vstd::prelude::*;

verus! {

/// An RGB colour on the 0-255 channel scale.
#[derive(Clone, Copy, Debug, PartialEq, Eq, Structural)]
pub struct Rgb {
    pub r: u8,
    pub g: u8,
    pub b: u8,
}

/// The colour table: five known line identifiers map to their fixed colours,
/// every other identifier maps to full red.
pub open spec fn spec_line_color(s: Seq<char>) -> Rgb {
    if s == "31"@ {
        Rgb { r: 164, g: 162, b: 198 }
    } else if s == "704"@ {
        Rgb { r: 141, g: 34, b: 78 }
    } else if s == "701"@ {
        Rgb { r: 0, g: 141, b: 197 }
    } else if s == "703"@ {
        Rgb { r: 255, g: 193, b: 3 }
    } else if s == "91"@ {
        Rgb { r: 255, g: 255, b: 255 }
    } else {
        Rgb { r: 255, g: 0, b: 0 }
    }
}

/// The characters that trimming removes: the Unicode `White_Space` set,
/// which `str::trim` goes by.
pub open spec fn is_trim_whitespace(c: char) -> bool {
    c == '\u{9}' || c == '\u{A}' || c == '\u{B}' || c == '\u{C}' || c == '\u{D}' || c == ' '
        || c == '\u{85}' || c == '\u{A0}' || c == '\u{1680}' || c == '\u{2000}' || c == '\u{2001}'
        || c == '\u{2002}' || c == '\u{2003}' || c == '\u{2004}' || c == '\u{2005}'
        || c == '\u{2006}' || c == '\u{2007}' || c == '\u{2008}' || c == '\u{2009}'
        || c == '\u{200A}' || c == '\u{2028}' || c == '\u{2029}' || c == '\u{202F}'
        || c == '\u{205F}' || c == '\u{3000}'
}

/// A string with its leading whitespace removed.
pub open spec fn spec_trim_front(s: Seq<char>) -> Seq<char>
    decreases s.len(),
{
    if s.len() > 0 && is_trim_whitespace(s.first()) {
        spec_trim_front(s.drop_first())
    } else {
        s
    }
}

/// A string with its trailing whitespace removed.
pub open spec fn spec_trim_back(s: Seq<char>) -> Seq<char>
    decreases s.len(),
{
    if s.len() > 0 && is_trim_whitespace(s.last()) {
        spec_trim_back(s.drop_last())
    } else {
        s
    }
}

/// A string with leading and trailing whitespace removed.
pub open spec fn spec_trim(s: Seq<char>) -> Seq<char> {
    spec_trim_back(spec_trim_front(s))
}

/// Relies on `str::trim`: returns the slice with leading and trailing
/// whitespace removed, whitespace being the Unicode `White_Space` property;
/// the result depends on the input alone.
#[verifier::external_body]
fn trim_ws(s: &str) -> (r: &str)
    ensures
        r@ == spec_trim(s@),
{
    s.trim()
}

proof fn lemma_trim_front_head(s: Seq<char>)
    ensures
        spec_trim_front(s).len() > 0 ==> !is_trim_whitespace(spec_trim_front(s).first()),
    decreases s.len(),
{
    if s.len() > 0 && is_trim_whitespace(s.first()) {
        lemma_trim_front_head(s.drop_first());
    }
}

proof fn lemma_trim_back_last(s: Seq<char>)
    ensures
        spec_trim_back(s).len() > 0 ==> !is_trim_whitespace(spec_trim_back(s).last()),
    decreases s.len(),
{
    if s.len() > 0 && is_trim_whitespace(s.last()) {
        lemma_trim_back_last(s.drop_last());
    }
}

proof fn lemma_trim_back_first(s: Seq<char>)
    ensures
        spec_trim_back(s).len() > 0 ==> spec_trim_back(s).first() == s.first(),
    decreases s.len(),
{
    if s.len() > 0 && is_trim_whitespace(s.last()) {
        lemma_trim_back_first(s.drop_last());
    }
}

/// Law: a string without leading and trailing whitespace trims to itself;
/// in particular each of the five known line identifiers is its own trimmed
/// form.
pub proof fn lemma_trim_untouched(s: Seq<char>)
    requires
        s.len() == 0 || (!is_trim_whitespace(s.first()) && !is_trim_whitespace(s.last())),
    ensures
        spec_trim(s) == s,
{
}

/// Law: trimming is idempotent, so looking a trimmed identifier up again
/// changes nothing.
pub proof fn lemma_trim_idempotent(s: Seq<char>)
    ensures
        spec_trim(spec_trim(s)) == spec_trim(s),
{
    let u = spec_trim_front(s);
    let v = spec_trim_back(u);
    lemma_trim_front_head(s);
    lemma_trim_back_first(u);
    lemma_trim_back_last(u);
    assert(spec_trim_front(v) == v);
    assert(spec_trim_back(v) == v);
}

/// Law: leading or trailing whitespace never changes an identifier's colour:
/// the colour of an identifier is the colour of its trimmed form.
pub proof fn lemma_line_color_trim_invariant(s: Seq<char>)
    ensures
        spec_line_color(spec_trim(spec_trim(s))) == spec_line_color(spec_trim(s)),
{
    lemma_trim_idempotent(s);
}

fn str_eq(a: &str, b: &str) -> (r: bool)
    ensures
        r == (a@ == b@),
{
    let oa = a.to_owned();
    let ob = b.to_owned();
    oa == ob
}

/// The colour for an already-trimmed line identifier.
pub fn color_for_code(code: &str) -> (c: Rgb)
    ensures
        c == spec_line_color(code@),
{
    if str_eq(code, "31") {
        Rgb { r: 164, g: 162, b: 198 }
    } else if str_eq(code, "704") {
        Rgb { r: 141, g: 34, b: 78 }
    } else if str_eq(code, "701") {
        Rgb { r: 0, g: 141, b: 197 }
    } else if str_eq(code, "703") {
        Rgb { r: 255, g: 193, b: 3 }
    } else if str_eq(code, "91") {
        Rgb { r: 255, g: 255, b: 255 }
    } else {
        Rgb { r: 255, g: 0, b: 0 }
    }
}

/// The colour for a line identifier as it appears in the payload: the
/// identifier is trimmed first, then looked up in the table.
pub fn line_color(num: &str) -> (c: Rgb)
    ensures
        c == spec_line_color(spec_trim(num@)),
{
    color_for_code(trim_ws(num))
}

/// Law: each of the five known line identifiers maps to its fixed colour,
/// and every other identifier maps to full red.
pub proof fn lemma_line_color_table(s: Seq<char>)
    ensures
        s == "31"@ ==> spec_line_color(s) == (Rgb { r: 164, g: 162, b: 198 }),
        s == "704"@ ==> spec_line_color(s) == (Rgb { r: 141, g: 34, b: 78 }),
        s == "701"@ ==> spec_line_color(s) == (Rgb { r: 0, g: 141, b: 197 }),
        s == "703"@ ==> spec_line_color(s) == (Rgb { r: 255, g: 193, b: 3 }),
        s == "91"@ ==> spec_line_color(s) == (Rgb { r: 255, g: 255, b: 255 }),
        s != "31"@ && s != "704"@ && s != "701"@ && s != "703"@ && s != "91"@
            ==> spec_line_color(s) == (Rgb { r: 255, g: 0, b: 0 }),
{
    broadcast use vstd::string::group_string_axioms;

    reveal_strlit("31");
    reveal_strlit("704");
    reveal_strlit("701");
    reveal_strlit("703");
    reveal_strlit("91");
    assert("31"@.len() == 2);
    assert("704"@.len() == 3);
    assert("701"@.len() == 3);
    assert("703"@.len() == 3);
    assert("91"@.len() == 2);
    assert("704"@ != "31"@);
    assert("701"@ != "31"@);
    assert("701"@[2] == '1' && "704"@[2] == '4' && "703"@[2] == '3');
    assert("701"@ != "704"@);
    assert("703"@ != "31"@);
    assert("703"@ != "704"@);
    assert("703"@ != "701"@);
    assert("91"@[0] == '9' && "31"@[0] == '3');
    assert("91"@ != "31"@);
    assert("91"@ != "704"@);
    assert("91"@ != "701"@);
    assert("91"@ != "703"@);
}

} // verus!
