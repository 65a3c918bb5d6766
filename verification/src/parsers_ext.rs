use vstd::prelude::*;

use crate::combinators::{Or, Then};
use crate::combiners::{CharPair, LeftRight, TakeLeft, TakeRight};
use crate::modifiers::{CharToStr, ModVal, OneOrNone, ValMap};
use crate::parser::Parser;
use crate::primitives::{AnyChar, CharInStr, CharPred, CharSingle, Keyword, ReadCharF};
use crate::repeat::NoneOrManyUntil;

verus! {

/// Whether the character is a Unicode lowercase letter; a property of the
/// character alone.
pub uninterp spec fn unicode_lowercase(c: char) -> bool;

/// Relies on char::is_lowercase: whether the character is Unicode
/// lowercase, a function of the character alone.
#[verifier::external_body]
fn char_is_lowercase(c: char) -> (b: bool)
    ensures
        b == unicode_lowercase(c),
{
    c.is_lowercase()
}

/// Whether the character is a Unicode uppercase letter; a property of the
/// character alone.
pub uninterp spec fn unicode_uppercase(c: char) -> bool;

/// Relies on char::is_uppercase: whether the character is Unicode
/// uppercase, a function of the character alone.
#[verifier::external_body]
fn char_is_uppercase(c: char) -> (b: bool)
    ensures
        b == unicode_uppercase(c),
{
    c.is_uppercase()
}

/// Whether the character is a Unicode letter; a property of the character
/// alone.
pub uninterp spec fn unicode_alphabetic(c: char) -> bool;

/// Relies on char::is_alphabetic: whether the character is a Unicode
/// letter, a function of the character alone.
#[verifier::external_body]
fn char_is_alphabetic(c: char) -> (b: bool)
    ensures
        b == unicode_alphabetic(c),
{
    c.is_alphabetic()
}

/// Whether the character is a Unicode letter or digit; a property of the
/// character alone.
pub uninterp spec fn unicode_alphanumeric(c: char) -> bool;

/// Relies on char::is_alphanumeric: whether the character is a Unicode
/// letter or digit, a function of the character alone.
#[verifier::external_body]
fn char_is_alphanumeric(c: char) -> (b: bool)
    ensures
        b == unicode_alphanumeric(c),
{
    c.is_alphanumeric()
}

pub open spec fn is_ascii_lowercase_char(c: char) -> bool {
    97 <= c as u32 && c as u32 <= 122
}

pub open spec fn is_ascii_uppercase_char(c: char) -> bool {
    65 <= c as u32 && c as u32 <= 90
}

pub open spec fn is_ascii_alpha_char(c: char) -> bool {
    is_ascii_lowercase_char(c) || is_ascii_uppercase_char(c)
}

pub open spec fn is_decimal_digit_char(c: char) -> bool {
    48 <= c as u32 && c as u32 <= 57
}

pub open spec fn is_ascii_alphanumeric_char(c: char) -> bool {
    is_ascii_alpha_char(c) || is_decimal_digit_char(c)
}

/// Unicode lowercase classification.
#[derive(Clone, Copy, Debug, PartialEq, Eq)]
pub struct IsLowercase;

impl CharPred for IsLowercase {
    open spec fn spp(&self, c: char) -> bool {
        unicode_lowercase(c)
    }

    fn test(&self, c: char) -> (b: bool) {
        char_is_lowercase(c)
    }
}

/// Unicode uppercase classification.
#[derive(Clone, Copy, Debug, PartialEq, Eq)]
pub struct IsUppercase;

impl CharPred for IsUppercase {
    open spec fn spp(&self, c: char) -> bool {
        unicode_uppercase(c)
    }

    fn test(&self, c: char) -> (b: bool) {
        char_is_uppercase(c)
    }
}

/// Unicode letter classification.
#[derive(Clone, Copy, Debug, PartialEq, Eq)]
pub struct IsAlpha;

impl CharPred for IsAlpha {
    open spec fn spp(&self, c: char) -> bool {
        unicode_alphabetic(c)
    }

    fn test(&self, c: char) -> (b: bool) {
        char_is_alphabetic(c)
    }
}

/// Unicode letter-or-digit classification.
#[derive(Clone, Copy, Debug, PartialEq, Eq)]
pub struct IsAlphanumeric;

impl CharPred for IsAlphanumeric {
    open spec fn spp(&self, c: char) -> bool {
        unicode_alphanumeric(c)
    }

    fn test(&self, c: char) -> (b: bool) {
        char_is_alphanumeric(c)
    }
}

/// Decimal digit classification.
#[derive(Clone, Copy, Debug, PartialEq, Eq)]
pub struct IsDecimalDigit;

impl CharPred for IsDecimalDigit {
    open spec fn spp(&self, c: char) -> bool {
        is_decimal_digit_char(c)
    }

    fn test(&self, c: char) -> (b: bool) {
        let u = c as u32;
        48 <= u && u <= 57
    }
}

/// ASCII lowercase classification.
#[derive(Clone, Copy, Debug, PartialEq, Eq)]
pub struct IsAsciiLowercase;

impl CharPred for IsAsciiLowercase {
    open spec fn spp(&self, c: char) -> bool {
        is_ascii_lowercase_char(c)
    }

    fn test(&self, c: char) -> (b: bool) {
        let u = c as u32;
        97 <= u && u <= 122
    }
}

/// ASCII uppercase classification.
#[derive(Clone, Copy, Debug, PartialEq, Eq)]
pub struct IsAsciiUppercase;

impl CharPred for IsAsciiUppercase {
    open spec fn spp(&self, c: char) -> bool {
        is_ascii_uppercase_char(c)
    }

    fn test(&self, c: char) -> (b: bool) {
        let u = c as u32;
        65 <= u && u <= 90
    }
}

/// ASCII letter classification.
#[derive(Clone, Copy, Debug, PartialEq, Eq)]
pub struct IsAsciiAlpha;

impl CharPred for IsAsciiAlpha {
    open spec fn spp(&self, c: char) -> bool {
        is_ascii_alpha_char(c)
    }

    fn test(&self, c: char) -> (b: bool) {
        let u = c as u32;
        (97 <= u && u <= 122) || (65 <= u && u <= 90)
    }
}

/// ASCII letter-or-digit classification.
#[derive(Clone, Copy, Debug, PartialEq, Eq)]
pub struct IsAsciiAlphanumeric;

impl CharPred for IsAsciiAlphanumeric {
    open spec fn spp(&self, c: char) -> bool {
        is_ascii_alphanumeric_char(c)
    }

    fn test(&self, c: char) -> (b: bool) {
        let u = c as u32;
        (97 <= u && u <= 122) || (65 <= u && u <= 90) || (48 <= u && u <= 57)
    }
}

pub fn lowercase() -> (r: ReadCharF<IsLowercase>)
    ensures
        r == (ReadCharF { f: IsLowercase }),
{
    ReadCharF { f: IsLowercase }
}

pub fn uppercase() -> (r: ReadCharF<IsUppercase>)
    ensures
        r == (ReadCharF { f: IsUppercase }),
{
    ReadCharF { f: IsUppercase }
}

pub fn alpha() -> (r: ReadCharF<IsAlpha>)
    ensures
        r == (ReadCharF { f: IsAlpha }),
{
    ReadCharF { f: IsAlpha }
}

pub fn alphanumeric() -> (r: ReadCharF<IsAlphanumeric>)
    ensures
        r == (ReadCharF { f: IsAlphanumeric }),
{
    ReadCharF { f: IsAlphanumeric }
}

pub fn digit() -> (r: ReadCharF<IsDecimalDigit>)
    ensures
        r == (ReadCharF { f: IsDecimalDigit }),
{
    ReadCharF { f: IsDecimalDigit }
}

pub fn ascii_lowercase() -> (r: ReadCharF<IsAsciiLowercase>)
    ensures
        r == (ReadCharF { f: IsAsciiLowercase }),
{
    ReadCharF { f: IsAsciiLowercase }
}

pub fn ascii_uppercase() -> (r: ReadCharF<IsAsciiUppercase>)
    ensures
        r == (ReadCharF { f: IsAsciiUppercase }),
{
    ReadCharF { f: IsAsciiUppercase }
}

pub fn ascii_alpha() -> (r: ReadCharF<IsAsciiAlpha>)
    ensures
        r == (ReadCharF { f: IsAsciiAlpha }),
{
    ReadCharF { f: IsAsciiAlpha }
}

pub fn ascii_alphanumeric() -> (r: ReadCharF<IsAsciiAlphanumeric>)
    ensures
        r == (ReadCharF { f: IsAsciiAlphanumeric }),
{
    ReadCharF { f: IsAsciiAlphanumeric }
}

pub fn ascii_digit() -> (r: ReadCharF<IsDecimalDigit>)
    ensures
        r == (ReadCharF { f: IsDecimalDigit }),
{
    ReadCharF { f: IsDecimalDigit }
}

/// Backslash followed by any character, combined into a two-character
/// string.
pub fn escaped_char() -> (r: Then<CharSingle, AnyChar, CharPair>)
    ensures
        r == (Then { a: CharSingle { c: '\\' }, b: AnyChar, comb: CharPair }),
{
    Then { a: CharSingle { c: '\\' }, b: AnyChar, comb: CharPair }
}

/// Quoted-string reader: an opening quote, then any characters up to the
/// closing quote; both quotes are consumed and discarded, the value is the
/// content between them.
pub fn normal_string() -> (r: Then<
    CharSingle,
    NoneOrManyUntil<AnyChar, CharSingle, TakeLeft>,
    TakeRight,
>)
    ensures
        r == (Then {
            a: CharSingle { c: '"' },
            b: NoneOrManyUntil { p: AnyChar, t: CharSingle { c: '"' }, comb: TakeLeft },
            comb: TakeRight,
        }),
{
    Then {
        a: CharSingle { c: '"' },
        b: NoneOrManyUntil { p: AnyChar, t: CharSingle { c: '"' }, comb: TakeLeft },
        comb: TakeRight,
    }
}

/// Line terminator: a two-character terminator is preferred over the
/// one-character one.
pub fn newline() -> (r: Or<Keyword, Keyword>)
    ensures
        r.a.kw@ == seq!['\r', '\n'],
        r.b.kw@ == seq!['\n'],
{
    let mut crlf: Vec<char> = Vec::new();
    crlf.push('\r');
    crlf.push('\n');
    let mut lf: Vec<char> = Vec::new();
    lf.push('\n');
    proof {
        assert(crlf@ =~= seq!['\r', '\n']);
        assert(lf@ =~= seq!['\n']);
    }
    Or { a: Keyword { kw: crlf }, b: Keyword { kw: lf } }
}

/// A single unit of whitespace: a blank or tab, or a line terminator.
pub fn air() -> (r: Or<ModVal<CharInStr, CharToStr>, Or<Keyword, Keyword>>)
    ensures
        r.a.p.s@ == seq![' ', '\t'],
        r.a.f == CharToStr,
        r.b.a.kw@ == seq!['\r', '\n'],
        r.b.b.kw@ == seq!['\n'],
{
    let mut blanks: Vec<char> = Vec::new();
    blanks.push(' ');
    blanks.push('\t');
    proof {
        assert(blanks@ =~= seq![' ', '\t']);
    }
    Or { a: ModVal { p: CharInStr { s: blanks }, f: CharToStr }, b: newline() }
}

pub fn comma() -> (r: CharSingle)
    ensures
        r == (CharSingle { c: ',' }),
{
    CharSingle { c: ',' }
}

pub fn dot() -> (r: CharSingle)
    ensures
        r == (CharSingle { c: '.' }),
{
    CharSingle { c: '.' }
}

/// The three parts of a "left, middle, right" match, kept under their
/// roles.
#[derive(Clone, Debug, PartialEq, Eq)]
pub struct Infix<LeftT, ParentT, RightT> {
    pub p: ParentT,
    pub l: LeftT,
    pub r: RightT,
}

impl<L: DeepView, P: DeepView, R: DeepView> DeepView for Infix<L, P, R> {
    type V = Infix<L::V, P::V, R::V>;

    open spec fn deep_view(&self) -> Infix<L::V, P::V, R::V> {
        Infix { p: self.p.deep_view(), l: self.l.deep_view(), r: self.r.deep_view() }
    }
}

/// Reshape a nested pair of the three parts into an `Infix` record.
#[derive(Clone, Copy, Debug, PartialEq, Eq)]
pub struct InfixShape;

impl<L: DeepView, P: DeepView, R: DeepView> ValMap<(L, (P, R))> for InfixShape {
    type O = Infix<L, P, R>;

    type SO = Infix<L::V, P::V, R::V>;

    open spec fn spm(&self, a: (L::V, (P::V, R::V))) -> Infix<L::V, P::V, R::V> {
        Infix { p: a.1.0, l: a.0, r: a.1.1 }
    }

    fn map(&self, a: (L, (P, R))) -> (r: Infix<L, P, R>) {
        let (l, pr) = a;
        let (p, rr) = pr;
        Infix { p, l, r: rr }
    }
}

/// "Left, middle, right" sequencing that preserves all three sub-values in
/// a labelled record.
pub fn infix<PL: Parser, PP: Parser, PR: Parser>(p_left: PL, p_parent: PP, p_right: PR) -> (r:
    ModVal<Then<PL, Then<PP, PR, LeftRight>, LeftRight>, InfixShape>)
    ensures
        r == (ModVal {
            p: Then {
                a: p_left,
                b: Then { a: p_parent, b: p_right, comb: LeftRight },
                comb: LeftRight,
            },
            f: InfixShape,
        }),
{
    ModVal {
        p: Then {
            a: p_left,
            b: Then { a: p_parent, b: p_right, comb: LeftRight },
            comb: LeftRight,
        },
        f: InfixShape,
    }
}

/// "Left, middle, right" sequencing that keeps only the middle value: the
/// common delimiter-discarding case.
pub fn infixp<PL: Parser, PP: Parser, PR: Parser>(p_left: PL, p_parent: PP, p_right: PR) -> (r:
    Then<PL, Then<PP, PR, TakeLeft>, TakeRight>)
    ensures
        r == (Then {
            a: p_left,
            b: Then { a: p_parent, b: p_right, comb: TakeLeft },
            comb: TakeRight,
        }),
{
    Then { a: p_left, b: Then { a: p_parent, b: p_right, comb: TakeLeft }, comb: TakeRight }
}

/// Optional application of a parser.
pub fn maybe<P: Parser>(p: P) -> (r: OneOrNone<P>)
    ensures
        r == (OneOrNone { p }),
{
    OneOrNone { p }
}

} // verus!
