use vstd::prelude::*;

use crate::data::{PResData, lemma_vec_deep, seq_deep};
use crate::file_pos::{FilePos, advance, advance_one, advance_pos};
use crate::parser::{InputView, PErr, POut, PRes, Parser, ParserInput, ResultView, SpOut, res_wf};

verus! {

/// The success produced by consuming the single next character.
pub open spec fn one_char_res(inp: InputView) -> ResultView<char>
    recommends
        inp.text.len() > 0,
{
    ResultView {
        val: inp.text[0],
        pos: advance_one(inp.pos, inp.text[0]),
        remainder: inp.text.skip(1),
    }
}

pub proof fn lemma_one_char_wf(inp: InputView)
    requires
        inp.text.len() > 0,
    ensures
        res_wf(inp, one_char_res(inp)),
{
    assert(inp.text.skip(1).len() == inp.text.len() - 1);
    assert(inp.text.take(1)[0] == inp.text[0]);
    assert(inp.text.take(1).skip(1) =~= Seq::<char>::empty());
    assert(advance_pos(advance_one(inp.pos, inp.text[0]), inp.text.take(1).skip(1))
        == advance_one(inp.pos, inp.text[0]));
    assert(advance_pos(inp.pos, inp.text.take(1)) == advance_one(inp.pos, inp.text[0]));
}

/// Consume the next character, which the caller has already read.
fn one_char<'a>(inp: ParserInput<'a>, c: char) -> (r: PRes<'a, char>)
    requires
        inp@.wf(),
        inp.text@.len() > 0,
        c == inp.text@[0],
    ensures
        r@ == one_char_res(inp@),
{
    let pos = if c == '\n' {
        FilePos { line: inp.pos.line + 1, column: 0 }
    } else {
        FilePos { line: inp.pos.line, column: inp.pos.column + 1 }
    };
    let rem = &inp.text[1..inp.text.len()];
    proof {
        assert(rem@ =~= inp.text@.skip(1));
    }
    PRes { val: c, pos, remainder: rem }
}

/// Unconditional single-character consumption; fails only at end of input.
#[derive(Clone, Copy, Debug, PartialEq, Eq)]
pub struct AnyChar;

pub fn any_char() -> (r: AnyChar)
    ensures
        r == AnyChar,
{
    AnyChar
}

impl Parser for AnyChar {
    type V = char;

    type SV = char;

    open spec fn sp(&self, inp: InputView) -> SpOut<char> {
        if inp.text.len() > 0 {
            Ok(one_char_res(inp))
        } else {
            Err(PErr { pos: inp.pos })
        }
    }

    proof fn lemma_sp_wf(&self, inp: InputView) {
        if inp.text.len() > 0 {
            lemma_one_char_wf(inp);
        }
    }

    fn parse<'a>(&self, inp: ParserInput<'a>) -> (r: POut<'a, char>) {
        if inp.text.len() == 0 {
            return Err(PErr { pos: inp.pos });
        }
        let c = inp.text[0];
        Ok(one_char(inp, c))
    }
}

/// Exact single-character match.
#[derive(Clone, Copy, Debug, PartialEq, Eq)]
pub struct CharSingle {
    pub c: char,
}

pub fn char_single(c: char) -> (r: CharSingle)
    ensures
        r == (CharSingle { c }),
{
    CharSingle { c }
}

impl Parser for CharSingle {
    type V = char;

    type SV = char;

    open spec fn sp(&self, inp: InputView) -> SpOut<char> {
        if inp.text.len() > 0 && inp.text[0] == self.c {
            Ok(one_char_res(inp))
        } else {
            Err(PErr { pos: inp.pos })
        }
    }

    proof fn lemma_sp_wf(&self, inp: InputView) {
        if inp.text.len() > 0 {
            lemma_one_char_wf(inp);
        }
    }

    fn parse<'a>(&self, inp: ParserInput<'a>) -> (r: POut<'a, char>) {
        if inp.text.len() == 0 {
            return Err(PErr { pos: inp.pos });
        }
        let c = inp.text[0];
        if c == self.c {
            Ok(one_char(inp, c))
        } else {
            Err(PErr { pos: inp.pos })
        }
    }
}

/// A character predicate: the extension point every classification parser
/// is built from.
pub trait CharPred: Sized {
    /// The tested condition.
    spec fn spp(&self, c: char) -> bool;

    fn test(&self, c: char) -> (b: bool)
        ensures
            b == self.spp(c),
    ;
}

/// Predicate-based single-character match.
pub struct ReadCharF<F> {
    pub f: F,
}

pub fn read_char_f<F: CharPred>(f: F) -> (r: ReadCharF<F>)
    ensures
        r == (ReadCharF { f }),
{
    ReadCharF { f }
}

impl<F: CharPred> Parser for ReadCharF<F> {
    type V = char;

    type SV = char;

    open spec fn sp(&self, inp: InputView) -> SpOut<char> {
        if inp.text.len() > 0 && self.f.spp(inp.text[0]) {
            Ok(one_char_res(inp))
        } else {
            Err(PErr { pos: inp.pos })
        }
    }

    proof fn lemma_sp_wf(&self, inp: InputView) {
        if inp.text.len() > 0 {
            lemma_one_char_wf(inp);
        }
    }

    fn parse<'a>(&self, inp: ParserInput<'a>) -> (r: POut<'a, char>) {
        if inp.text.len() == 0 {
            return Err(PErr { pos: inp.pos });
        }
        let c = inp.text[0];
        if self.f.test(c) {
            Ok(one_char(inp, c))
        } else {
            Err(PErr { pos: inp.pos })
        }
    }
}

/// Membership of the next character in a fixed character set.
pub struct CharInStr {
    pub s: Vec<char>,
}

pub fn char_in_str(s: Vec<char>) -> (r: CharInStr)
    ensures
        r == (CharInStr { s }),
{
    CharInStr { s }
}

fn vec_contains_char(s: &Vec<char>, c: char) -> (b: bool)
    ensures
        b == s@.contains(c),
{
    let mut i: usize = 0;
    while i < s.len()
        invariant
            i <= s@.len(),
            forall|j: int| 0 <= j < i as int ==> s@[j] != c,
        decreases s@.len() - i,
    {
        if s[i] == c {
            return true;
        }
        i += 1;
    }
    false
}

impl Parser for CharInStr {
    type V = char;

    type SV = char;

    open spec fn sp(&self, inp: InputView) -> SpOut<char> {
        if inp.text.len() > 0 && self.s@.contains(inp.text[0]) {
            Ok(one_char_res(inp))
        } else {
            Err(PErr { pos: inp.pos })
        }
    }

    proof fn lemma_sp_wf(&self, inp: InputView) {
        if inp.text.len() > 0 {
            lemma_one_char_wf(inp);
        }
    }

    fn parse<'a>(&self, inp: ParserInput<'a>) -> (r: POut<'a, char>) {
        if inp.text.len() == 0 {
            return Err(PErr { pos: inp.pos });
        }
        let c = inp.text[0];
        if vec_contains_char(&self.s, c) {
            Ok(one_char(inp, c))
        } else {
            Err(PErr { pos: inp.pos })
        }
    }
}

/// Exact literal-string match: succeeds when the keyword is a prefix of
/// the input, consuming it and yielding it as the value.
pub struct Keyword {
    pub kw: Vec<char>,
}

pub fn keyword(kw: Vec<char>) -> (r: Keyword)
    ensures
        r == (Keyword { kw }),
{
    Keyword { kw }
}

impl Parser for Keyword {
    type V = Vec<char>;

    type SV = Seq<char>;

    open spec fn sp(&self, inp: InputView) -> SpOut<Seq<char>> {
        let k = self.kw@.len() as int;
        if inp.text.len() >= self.kw@.len() && inp.text.take(k) == self.kw@ {
            Ok(
                ResultView {
                    val: self.kw@,
                    pos: advance_pos(inp.pos, self.kw@),
                    remainder: inp.text.skip(k),
                },
            )
        } else {
            Err(PErr { pos: inp.pos })
        }
    }

    proof fn lemma_sp_wf(&self, inp: InputView) {
        let k = self.kw@.len() as int;
        if inp.text.len() >= self.kw@.len() && inp.text.take(k) == self.kw@ {
            assert(inp.text.skip(k).len() == inp.text.len() - k);
            assert(inp.text.skip(inp.text.len() - inp.text.skip(k).len()) =~= inp.text.skip(k));
        }
    }

    fn parse<'a>(&self, inp: ParserInput<'a>) -> (r: POut<'a, Vec<char>>) {
        let k = self.kw.len();
        if k > inp.text.len() {
            return Err(PErr { pos: inp.pos });
        }
        let mut i: usize = 0;
        while i < k
            invariant
                i <= k,
                k == self.kw@.len(),
                k <= inp.text@.len(),
                inp@.wf(),
                forall|j: int| 0 <= j < i as int ==> inp.text@[j] == self.kw@[j],
            decreases k - i,
        {
            if inp.text[i] != self.kw[i] {
                proof {
                    assert(inp.text@.take(k as int)[i as int] != self.kw@[i as int]);
                }
                return Err(PErr { pos: inp.pos });
            }
            i += 1;
        }
        proof {
            assert(inp.text@.take(k as int) =~= self.kw@);
        }
        let consumed = &inp.text[0..k];
        proof {
            assert(consumed@ =~= self.kw@);
        }
        let pos = advance(inp.pos, consumed);
        let rem = &inp.text[k..inp.text.len()];
        proof {
            assert(rem@ =~= inp.text@.skip(k as int));
        }
        let val = self.kw.dup();
        proof {
            lemma_vec_deep(&val);
            assert(seq_deep(self.kw@) =~= self.kw@);
            assert(val.deep_view() == self.kw.deep_view());
            lemma_vec_deep(&self.kw);
        }
        Ok(PRes { val, pos, remainder: rem })
    }
}

} // verus!
