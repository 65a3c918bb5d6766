use vstd::prelude::*;

use crate::combiners::{Combiner, gen_comb};
use crate::data::PResData;
use crate::parser::{
    InputView, PErr, POut, PRes, Parser, ParserInput, ResultView, SpOut, lemma_res_wf_id,
    lemma_res_wf_next, lemma_res_wf_trans,
};

verus! {

/// Run `a`; if it succeeds, run `b` on `a`'s remainder; merge the two
/// successes with the combiner; any single failure propagates unchanged.
pub struct Then<A, B, C> {
    pub a: A,
    pub b: B,
    pub comb: C,
}

pub fn then<A: Parser, B: Parser, C: Combiner<A::V, B::V>>(a: A, b: B, comb: C) -> (r: Then<
    A,
    B,
    C,
>)
    ensures
        r == (Then { a, b, comb }),
{
    Then { a, b, comb }
}

impl<A: Parser, B: Parser, C: Combiner<A::V, B::V>> Parser for Then<A, B, C> {
    type V = C::O;

    type SV = C::SO;

    open spec fn sp(&self, inp: InputView) -> SpOut<C::SO> {
        match self.a.sp(inp) {
            Ok(ar) => match self.b.sp(ar.to_in()) {
                Ok(br) => Ok(
                    ResultView {
                        val: self.comb.spc(ar.val, br.val),
                        pos: br.pos,
                        remainder: br.remainder,
                    },
                ),
                Err(e) => Err(e),
            },
            Err(e) => Err(e),
        }
    }

    proof fn lemma_sp_wf(&self, inp: InputView) {
        self.a.lemma_sp_wf(inp);
        if let Ok(ar) = self.a.sp(inp) {
            self.b.lemma_sp_wf(ar.to_in());
            if let Ok(br) = self.b.sp(ar.to_in()) {
                lemma_res_wf_trans(inp, ar, br, self.comb.spc(ar.val, br.val));
            }
        }
    }

    fn parse<'a>(&self, inp: ParserInput<'a>) -> (r: POut<'a, C::O>) {
        match self.a.parse(inp) {
            Ok(a_succ) => {
                proof {
                    self.a.lemma_sp_wf(inp@);
                    lemma_res_wf_next(inp@, a_succ@);
                }
                let next = a_succ.to_in();
                let b_res = self.b.parse(next);
                gen_comb(Ok(a_succ), b_res, &self.comb)
            },
            Err(a_fail) => Err(a_fail),
        }
    }
}

/// Run `a` and `b` as independent scans from the same starting input; merge
/// the two successes with the combiner, which adopts `b`'s consumption
/// state; the first failure propagates.
pub struct And<A, B, C> {
    pub a: A,
    pub b: B,
    pub comb: C,
}

pub fn and<A: Parser, B: Parser, C: Combiner<A::V, B::V>>(a: A, b: B, comb: C) -> (r: And<
    A,
    B,
    C,
>)
    ensures
        r == (And { a, b, comb }),
{
    And { a, b, comb }
}

impl<A: Parser, B: Parser, C: Combiner<A::V, B::V>> Parser for And<A, B, C> {
    type V = C::O;

    type SV = C::SO;

    open spec fn sp(&self, inp: InputView) -> SpOut<C::SO> {
        match self.a.sp(inp) {
            Ok(ar) => match self.b.sp(inp) {
                Ok(br) => Ok(
                    ResultView {
                        val: self.comb.spc(ar.val, br.val),
                        pos: br.pos,
                        remainder: br.remainder,
                    },
                ),
                Err(e) => Err(e),
            },
            Err(e) => Err(e),
        }
    }

    proof fn lemma_sp_wf(&self, inp: InputView) {
        self.a.lemma_sp_wf(inp);
        self.b.lemma_sp_wf(inp);
    }

    fn parse<'a>(&self, inp: ParserInput<'a>) -> (r: POut<'a, C::O>) {
        match self.a.parse(inp) {
            Ok(a_succ) => {
                let b_res = self.b.parse(inp);
                gen_comb(Ok(a_succ), b_res, &self.comb)
            },
            Err(a_fail) => Err(a_fail),
        }
    }
}

/// Ordered alternative: try `a`; on failure try `b` against the original
/// input; the first success wins, and if both fail, `b`'s failure
/// propagates.
pub struct Or<A, B> {
    pub a: A,
    pub b: B,
}

pub fn or<A: Parser, B: Parser<V = A::V, SV = A::SV>>(a: A, b: B) -> (r: Or<A, B>)
    ensures
        r == (Or { a, b }),
{
    Or { a, b }
}

impl<A: Parser, B: Parser<V = A::V, SV = A::SV>> Parser for Or<A, B> {
    type V = A::V;

    type SV = A::SV;

    open spec fn sp(&self, inp: InputView) -> SpOut<A::SV> {
        match self.a.sp(inp) {
            Ok(ar) => Ok(ar),
            Err(_) => self.b.sp(inp),
        }
    }

    proof fn lemma_sp_wf(&self, inp: InputView) {
        self.a.lemma_sp_wf(inp);
        self.b.lemma_sp_wf(inp);
    }

    fn parse<'a>(&self, inp: ParserInput<'a>) -> (r: POut<'a, A::V>) {
        match self.a.parse(inp) {
            Ok(a_succ) => Ok(a_succ),
            Err(_) => self.b.parse(inp),
        }
    }
}

/// Try the sequential combination of `a` then `b` first; if that fails,
/// fall back to plain ordered alternation between `a` and `b`.
pub struct EitherOr<A, B, C> {
    pub a: A,
    pub b: B,
    pub comb: C,
}

pub fn either_or<
    A: Parser,
    B: Parser<V = A::V, SV = A::SV>,
    C: Combiner<A::V, A::V, O = A::V, SO = A::SV>,
>(a: A, b: B, comb: C) -> (r: EitherOr<A, B, C>)
    ensures
        r == (EitherOr { a, b, comb }),
{
    EitherOr { a, b, comb }
}

impl<
    A: Parser,
    B: Parser<V = A::V, SV = A::SV>,
    C: Combiner<A::V, A::V, O = A::V, SO = A::SV>,
> Parser for EitherOr<A, B, C> {
    type V = A::V;

    type SV = A::SV;

    open spec fn sp(&self, inp: InputView) -> SpOut<A::SV> {
        match self.a.sp(inp) {
            Err(_) => self.b.sp(inp),
            Ok(ar) => match self.b.sp(ar.to_in()) {
                Ok(br) => Ok(
                    ResultView {
                        val: self.comb.spc(ar.val, br.val),
                        pos: br.pos,
                        remainder: br.remainder,
                    },
                ),
                Err(_) => Ok(ar),
            },
        }
    }

    proof fn lemma_sp_wf(&self, inp: InputView) {
        self.a.lemma_sp_wf(inp);
        self.b.lemma_sp_wf(inp);
        if let Ok(ar) = self.a.sp(inp) {
            self.b.lemma_sp_wf(ar.to_in());
            if let Ok(br) = self.b.sp(ar.to_in()) {
                lemma_res_wf_trans(inp, ar, br, self.comb.spc(ar.val, br.val));
            }
        }
    }

    fn parse<'a>(&self, inp: ParserInput<'a>) -> (r: POut<'a, A::V>) {
        match self.a.parse(inp) {
            Err(_) => self.b.parse(inp),
            Ok(a_succ) => {
                proof {
                    self.a.lemma_sp_wf(inp@);
                    lemma_res_wf_next(inp@, a_succ@);
                }
                let next = a_succ.to_in();
                match self.b.parse(next) {
                    Ok(b_succ) => gen_comb(Ok(a_succ), Ok(b_succ), &self.comb),
                    Err(_) => Ok(a_succ),
                }
            },
        }
    }
}

/// Negative lookahead: succeeds with a trivial value and zero consumption
/// exactly when the wrapped parser fails; never advances the input.
pub struct Not<P> {
    pub p: P,
}

pub fn not<P: Parser>(p: P) -> (r: Not<P>)
    ensures
        r == (Not { p }),
{
    Not { p }
}

impl<P: Parser> Parser for Not<P> {
    type V = ();

    type SV = ();

    open spec fn sp(&self, inp: InputView) -> SpOut<()> {
        match self.p.sp(inp) {
            Ok(_) => Err(PErr { pos: inp.pos }),
            Err(_) => Ok(ResultView { val: (), pos: inp.pos, remainder: inp.text }),
        }
    }

    proof fn lemma_sp_wf(&self, inp: InputView) {
        lemma_res_wf_id(inp, ());
    }

    fn parse<'a>(&self, inp: ParserInput<'a>) -> (r: POut<'a, ()>) {
        match self.p.parse(inp) {
            Ok(_) => Err(PErr { pos: inp.pos }),
            Err(_) => Ok(PRes { val: (), pos: inp.pos, remainder: inp.text }),
        }
    }
}

/// Positive lookahead: run the wrapped parser and keep its value, but
/// restore the original position and remainder.
pub struct NoConsume<P> {
    pub p: P,
}

pub fn no_consume<P: Parser>(p: P) -> (r: NoConsume<P>)
    ensures
        r == (NoConsume { p }),
{
    NoConsume { p }
}

impl<P: Parser> Parser for NoConsume<P> {
    type V = P::V;

    type SV = P::SV;

    open spec fn sp(&self, inp: InputView) -> SpOut<P::SV> {
        match self.p.sp(inp) {
            Ok(pr) => Ok(ResultView { val: pr.val, pos: inp.pos, remainder: inp.text }),
            Err(e) => Err(e),
        }
    }

    proof fn lemma_sp_wf(&self, inp: InputView) {
        if let Ok(pr) = self.p.sp(inp) {
            lemma_res_wf_id(inp, pr.val);
        }
    }

    fn parse<'a>(&self, inp: ParserInput<'a>) -> (r: POut<'a, P::V>) {
        match self.p.parse(inp) {
            Ok(pr) => Ok(PRes { val: pr.val, pos: inp.pos, remainder: inp.text }),
            Err(e) => Err(e),
        }
    }
}

/// Laziness marker: behaves exactly as the wrapped parser on every input,
/// so deferring changes when a parser is built, never what it does.
pub struct Defer<P> {
    pub p: P,
}

pub fn defer<P: Parser>(p: P) -> (r: Defer<P>)
    ensures
        r == (Defer { p }),
{
    Defer { p }
}

impl<P: Parser> Parser for Defer<P> {
    type V = P::V;

    type SV = P::SV;

    open spec fn sp(&self, inp: InputView) -> SpOut<P::SV> {
        self.p.sp(inp)
    }

    proof fn lemma_sp_wf(&self, inp: InputView) {
        self.p.lemma_sp_wf(inp);
    }

    fn parse<'a>(&self, inp: ParserInput<'a>) -> (r: POut<'a, P::V>) {
        self.p.parse(inp)
    }
}

/// Trivial parser: always succeeds with a fixed constant value and no
/// consumption.
pub struct Always<W> {
    pub v: W,
}

pub fn always<W: PResData>(v: W) -> (r: Always<W>)
    ensures
        r == (Always { v }),
{
    Always { v }
}

impl<W: PResData> Parser for Always<W> {
    type V = W;

    type SV = W::V;

    open spec fn sp(&self, inp: InputView) -> SpOut<W::V> {
        Ok(ResultView { val: self.v.deep_view(), pos: inp.pos, remainder: inp.text })
    }

    proof fn lemma_sp_wf(&self, inp: InputView) {
        lemma_res_wf_id(inp, self.v.deep_view());
    }

    fn parse<'a>(&self, inp: ParserInput<'a>) -> (r: POut<'a, W>) {
        Ok(PRes { val: self.v.dup(), pos: inp.pos, remainder: inp.text })
    }
}

} // verus!
