use vstd::prelude::*;

use crate::data::PResData;
use crate::file_pos::FilePos;
use crate::parser::{
    InputView, PErr, POut, PRes, Parser, ParserInput, ResultView, SpOut, lemma_res_wf_id,
};

verus! {

/// A value transformation applied to a successful parse's value.
pub trait ValMap<A: DeepView>: Sized {
    /// Executable output value type.
    type O: DeepView<V = Self::SO>;

    /// Mathematical model of the output value type.
    type SO;

    /// The transformed value.
    spec fn spm(&self, a: A::V) -> Self::SO;

    fn map(&self, a: A) -> (r: Self::O)
        ensures
            r.deep_view() == self.spm(a.deep_view()),
    ;
}

/// A transformation of a successful result record that may read the whole
/// record but leaves position and remainder untouched.
pub trait DatMap<A: DeepView>: Sized {
    /// Executable output value type.
    type O: DeepView<V = Self::SO>;

    /// Mathematical model of the output value type.
    type SO;

    /// The transformed value, as a function of the whole success record.
    spec fn spm(&self, a: ResultView<A::V>) -> Self::SO;

    fn map<'x>(&self, a: PRes<'x, A>) -> (r: PRes<'x, Self::O>)
        ensures
            r.pos == a.pos,
            r.remainder@ == a.remainder@,
            r.val.deep_view() == self.spm(a@),
    ;
}

/// A predicate over a successful parse result.
pub trait ResPredicate<A: DeepView>: Sized {
    /// The tested condition.
    spec fn spt(&self, r: ResultView<A::V>) -> bool;

    fn test<'x>(&self, r: &PRes<'x, A>) -> (b: bool)
        ensures
            b == self.spt(r@),
    ;
}

/// Transform a successful result's value without altering success or
/// failure, position, or remainder.
pub struct ModVal<P, F> {
    pub p: P,
    pub f: F,
}

pub fn mod_val<P: Parser, F: ValMap<P::V>>(p: P, f: F) -> (r: ModVal<P, F>)
    ensures
        r == (ModVal { p, f }),
{
    ModVal { p, f }
}

impl<P: Parser, F: ValMap<P::V>> Parser for ModVal<P, F> {
    type V = F::O;

    type SV = F::SO;

    open spec fn sp(&self, inp: InputView) -> SpOut<F::SO> {
        match self.p.sp(inp) {
            Ok(pr) => Ok(pr.with_val(self.f.spm(pr.val))),
            Err(e) => Err(e),
        }
    }

    proof fn lemma_sp_wf(&self, inp: InputView) {
        self.p.lemma_sp_wf(inp);
    }

    fn parse<'a>(&self, inp: ParserInput<'a>) -> (r: POut<'a, F::O>) {
        match self.p.parse(inp) {
            Ok(pr) => Ok(PRes { val: self.f.map(pr.val), pos: pr.pos, remainder: pr.remainder }),
            Err(e) => Err(e),
        }
    }
}

/// Transform a successful result record without altering success or
/// failure, position, or remainder.
pub struct ModDat<P, F> {
    pub p: P,
    pub f: F,
}

pub fn mod_dat<P: Parser, F: DatMap<P::V>>(p: P, f: F) -> (r: ModDat<P, F>)
    ensures
        r == (ModDat { p, f }),
{
    ModDat { p, f }
}

impl<P: Parser, F: DatMap<P::V>> Parser for ModDat<P, F> {
    type V = F::O;

    type SV = F::SO;

    open spec fn sp(&self, inp: InputView) -> SpOut<F::SO> {
        match self.p.sp(inp) {
            Ok(pr) => Ok(pr.with_val(self.f.spm(pr))),
            Err(e) => Err(e),
        }
    }

    proof fn lemma_sp_wf(&self, inp: InputView) {
        self.p.lemma_sp_wf(inp);
    }

    fn parse<'a>(&self, inp: ParserInput<'a>) -> (r: POut<'a, F::O>) {
        match self.p.parse(inp) {
            Ok(pr) => Ok(self.f.map(pr)),
            Err(e) => Err(e),
        }
    }
}

/// Discard a successful result's value in favour of a constant.
pub struct ReplaceVal<P, W> {
    pub p: P,
    pub v: W,
}

pub fn replace_val<P: Parser, W: PResData>(p: P, v: W) -> (r: ReplaceVal<P, W>)
    ensures
        r == (ReplaceVal { p, v }),
{
    ReplaceVal { p, v }
}

impl<P: Parser, W: PResData> Parser for ReplaceVal<P, W> {
    type V = W;

    type SV = W::V;

    open spec fn sp(&self, inp: InputView) -> SpOut<W::V> {
        match self.p.sp(inp) {
            Ok(pr) => Ok(pr.with_val(self.v.deep_view())),
            Err(e) => Err(e),
        }
    }

    proof fn lemma_sp_wf(&self, inp: InputView) {
        self.p.lemma_sp_wf(inp);
    }

    fn parse<'a>(&self, inp: ParserInput<'a>) -> (r: POut<'a, W>) {
        match self.p.parse(inp) {
            Ok(pr) => Ok(PRes { val: self.v.dup(), pos: pr.pos, remainder: pr.remainder }),
            Err(e) => Err(e),
        }
    }
}

/// Turn a success into a failure unless the predicate holds of it; a
/// failure, and consumption on success, pass through unchanged.
pub struct SucceedIf<P, F> {
    pub p: P,
    pub f: F,
}

pub fn succeed_if<P: Parser, F: ResPredicate<P::V>>(p: P, f: F) -> (r: SucceedIf<P, F>)
    ensures
        r == (SucceedIf { p, f }),
{
    SucceedIf { p, f }
}

impl<P: Parser, F: ResPredicate<P::V>> Parser for SucceedIf<P, F> {
    type V = P::V;

    type SV = P::SV;

    open spec fn sp(&self, inp: InputView) -> SpOut<P::SV> {
        match self.p.sp(inp) {
            Ok(pr) => if self.f.spt(pr) {
                Ok(pr)
            } else {
                Err(PErr { pos: pr.pos })
            },
            Err(e) => Err(e),
        }
    }

    proof fn lemma_sp_wf(&self, inp: InputView) {
        self.p.lemma_sp_wf(inp);
    }

    fn parse<'a>(&self, inp: ParserInput<'a>) -> (r: POut<'a, P::V>) {
        match self.p.parse(inp) {
            Ok(pr) => if self.f.test(&pr) {
                Ok(pr)
            } else {
                Err(PErr { pos: pr.pos })
            },
            Err(e) => Err(e),
        }
    }
}

/// Turn a success into a failure exactly when the predicate holds of it.
pub struct FailIf<P, F> {
    pub p: P,
    pub f: F,
}

pub fn fail_if<P: Parser, F: ResPredicate<P::V>>(p: P, f: F) -> (r: FailIf<P, F>)
    ensures
        r == (FailIf { p, f }),
{
    FailIf { p, f }
}

impl<P: Parser, F: ResPredicate<P::V>> Parser for FailIf<P, F> {
    type V = P::V;

    type SV = P::SV;

    open spec fn sp(&self, inp: InputView) -> SpOut<P::SV> {
        match self.p.sp(inp) {
            Ok(pr) => if !self.f.spt(pr) {
                Ok(pr)
            } else {
                Err(PErr { pos: pr.pos })
            },
            Err(e) => Err(e),
        }
    }

    proof fn lemma_sp_wf(&self, inp: InputView) {
        self.p.lemma_sp_wf(inp);
    }

    fn parse<'a>(&self, inp: ParserInput<'a>) -> (r: POut<'a, P::V>) {
        match self.p.parse(inp) {
            Ok(pr) => if !self.f.test(&pr) {
                Ok(pr)
            } else {
                Err(PErr { pos: pr.pos })
            },
            Err(e) => Err(e),
        }
    }
}

/// The canonical top-level wrapper: succeed exactly when the wrapped
/// parser succeeds and leaves no unconsumed input.
pub struct ConsumeAll<P> {
    pub p: P,
}

pub fn consume_all<P: Parser>(p: P) -> (r: ConsumeAll<P>)
    ensures
        r == (ConsumeAll { p }),
{
    ConsumeAll { p }
}

impl<P: Parser> Parser for ConsumeAll<P> {
    type V = P::V;

    type SV = P::SV;

    open spec fn sp(&self, inp: InputView) -> SpOut<P::SV> {
        match self.p.sp(inp) {
            Ok(pr) => if pr.remainder.len() == 0 {
                Ok(pr)
            } else {
                Err(PErr { pos: pr.pos })
            },
            Err(e) => Err(e),
        }
    }

    proof fn lemma_sp_wf(&self, inp: InputView) {
        self.p.lemma_sp_wf(inp);
    }

    fn parse<'a>(&self, inp: ParserInput<'a>) -> (r: POut<'a, P::V>) {
        match self.p.parse(inp) {
            Ok(pr) => if pr.remainder.len() == 0 {
                Ok(pr)
            } else {
                Err(PErr { pos: pr.pos })
            },
            Err(e) => Err(e),
        }
    }
}

/// Optional application: always succeeds, with the wrapped parser's value
/// when it succeeds here, else with an absent value and no consumption.
pub struct OneOrNone<P> {
    pub p: P,
}

pub fn one_or_none<P: Parser>(p: P) -> (r: OneOrNone<P>)
    ensures
        r == (OneOrNone { p }),
{
    OneOrNone { p }
}

impl<P: Parser> Parser for OneOrNone<P> {
    type V = Option<P::V>;

    type SV = Option<P::SV>;

    open spec fn sp(&self, inp: InputView) -> SpOut<Option<P::SV>> {
        match self.p.sp(inp) {
            Ok(pr) => Ok(pr.with_val(Some(pr.val))),
            Err(_) => Ok(ResultView { val: None, pos: inp.pos, remainder: inp.text }),
        }
    }

    proof fn lemma_sp_wf(&self, inp: InputView) {
        self.p.lemma_sp_wf(inp);
        lemma_res_wf_id(inp, None::<P::SV>);
    }

    fn parse<'a>(&self, inp: ParserInput<'a>) -> (r: POut<'a, Option<P::V>>) {
        match self.p.parse(inp) {
            Ok(pr) => Ok(PRes { val: Some(pr.val), pos: pr.pos, remainder: pr.remainder }),
            Err(_) => Ok(PRes { val: None, pos: inp.pos, remainder: inp.text }),
        }
    }
}

/// A predicate on character results: the parsed character equals a given
/// one. A semantic filter for constraints a grammar-level parser does not
/// express structurally.
#[derive(Clone, Copy, Debug, PartialEq, Eq)]
pub struct ValIsChar {
    pub c: char,
}

impl ResPredicate<char> for ValIsChar {
    open spec fn spt(&self, r: ResultView<char>) -> bool {
        r.val == self.c
    }

    fn test<'x>(&self, r: &PRes<'x, char>) -> (b: bool) {
        r.val == self.c
    }
}

/// Tag a successful value with the position at which its match ended:
/// a small diagnostic wrapping over the whole result record.
#[derive(Clone, Copy, Debug, PartialEq, Eq)]
pub struct ValWithPos;

impl<A: DeepView> DatMap<A> for ValWithPos {
    type O = (A, FilePos);

    type SO = (A::V, FilePos);

    open spec fn spm(&self, a: ResultView<A::V>) -> (A::V, FilePos) {
        (a.val, a.pos)
    }

    fn map<'x>(&self, a: PRes<'x, A>) -> (r: PRes<'x, (A, FilePos)>) {
        let pos = a.pos;
        PRes { val: (a.val, pos), pos, remainder: a.remainder }
    }
}

/// Turn a single character into a one-character string.
#[derive(Clone, Copy, Debug, PartialEq, Eq)]
pub struct CharToStr;

impl ValMap<char> for CharToStr {
    type O = Vec<char>;

    type SO = Seq<char>;

    open spec fn spm(&self, a: char) -> Seq<char> {
        seq![a]
    }

    fn map(&self, a: char) -> (r: Vec<char>) {
        let mut r: Vec<char> = Vec::new();
        r.push(a);
        proof {
            assert(r.deep_view() =~= seq![a]);
        }
        r
    }
}

/// View a single-character parser as a string parser.
pub fn display<P: Parser<V = char, SV = char>>(p: P) -> (r: ModVal<P, CharToStr>)
    ensures
        r == (ModVal { p, f: CharToStr }),
{
    ModVal { p, f: CharToStr }
}

} // verus!
