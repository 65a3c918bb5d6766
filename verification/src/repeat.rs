use vstd::prelude::*;

use crate::combiners::Combiner;
use crate::data::{lemma_vec_deep, seq_deep};
use crate::parser::{
    InputView, PErr, POut, PRes, Parser, ParserInput, ResultView, SpOut, lemma_res_wf_id,
    lemma_res_wf_next, lemma_res_wf_trans, res_wf,
};

verus! {

/// Repeated application of a parser until it fails, collecting the values
/// in order. Always succeeds; the collection may be empty. A success that
/// consumes nothing is collected once and ends the repetition, since no
/// further attempt could make progress.
pub open spec fn sp_many<P: Parser>(p: P, inp: InputView) -> ResultView<Seq<P::SV>>
    decreases inp.text.len(),
{
    match p.sp(inp) {
        Ok(res) => if res.remainder.len() < inp.text.len() {
            let rest = sp_many(p, res.to_in());
            ResultView { val: seq![res.val] + rest.val, pos: rest.pos, remainder: rest.remainder }
        } else {
            ResultView { val: seq![res.val], pos: res.pos, remainder: res.remainder }
        },
        Err(_) => ResultView { val: Seq::empty(), pos: inp.pos, remainder: inp.text },
    }
}

/// Repetition consumes a prefix of its input.
pub proof fn lemma_sp_many_wf<P: Parser>(p: P, inp: InputView)
    ensures
        res_wf(inp, sp_many(p, inp)),
    decreases inp.text.len(),
{
    p.lemma_sp_wf(inp);
    match p.sp(inp) {
        Ok(res) => {
            if res.remainder.len() < inp.text.len() {
                lemma_sp_many_wf(p, res.to_in());
                let rest = sp_many(p, res.to_in());
                lemma_res_wf_trans(inp, res, rest, seq![res.val] + rest.val);
            }
        },
        Err(_) => {
            lemma_res_wf_id(inp, Seq::<P::SV>::empty());
        },
    }
}

fn parse_many<'a, P: Parser>(p: &P, inp: ParserInput<'a>) -> (r: PRes<'a, Vec<P::V>>)
    requires
        inp@.wf(),
    ensures
        r@ == sp_many(*p, inp@),
    decreases inp.text@.len(),
{
    match p.parse(inp) {
        Ok(res) => {
            let ghost gres = res@;
            if res.remainder.len() < inp.text.len() {
                proof {
                    p.lemma_sp_wf(inp@);
                    lemma_res_wf_next(inp@, res@);
                }
                let next = res.to_in();
                let rest = parse_many(p, next);
                let ghost grest = rest@;
                let ghost gvals = rest.val@;
                let mut vals = rest.val;
                vals.insert(0, res.val);
                proof {
                    lemma_vec_deep(&vals);
                    assert(seq_deep(gvals.insert(0, res.val)) =~= seq![gres.val] + seq_deep(
                        gvals,
                    ));
                    assert(grest.val == seq_deep(gvals));
                    assert(vals.deep_view() == seq![gres.val] + grest.val);
                }
                let out = PRes { val: vals, pos: rest.pos, remainder: rest.remainder };
                proof {
                    assert(out@ =~= sp_many(*p, inp@));
                }
                out
            } else {
                let mut vals: Vec<P::V> = Vec::new();
                vals.push(res.val);
                proof {
                    assert(vals.deep_view() =~= seq![gres.val]);
                }
                let out = PRes { val: vals, pos: res.pos, remainder: res.remainder };
                proof {
                    assert(out@ =~= sp_many(*p, inp@));
                }
                out
            }
        },
        Err(_) => {
            let out = PRes { val: Vec::<P::V>::new(), pos: inp.pos, remainder: inp.text };
            proof {
                assert(out@ =~= sp_many(*p, inp@));
            }
            out
        },
    }
}

/// Repeat a parser until it fails, collecting the values; at least one
/// success is required, and the first attempt's failure propagates.
pub struct OneOrMany<P> {
    pub p: P,
}

pub fn one_or_many<P: Parser>(p: P) -> (r: OneOrMany<P>)
    ensures
        r == (OneOrMany { p }),
{
    OneOrMany { p }
}

impl<P: Parser> Parser for OneOrMany<P> {
    type V = Vec<P::V>;

    type SV = Seq<P::SV>;

    open spec fn sp(&self, inp: InputView) -> SpOut<Seq<P::SV>> {
        match self.p.sp(inp) {
            Ok(_) => Ok(sp_many(self.p, inp)),
            Err(e) => Err(e),
        }
    }

    proof fn lemma_sp_wf(&self, inp: InputView) {
        lemma_sp_many_wf(self.p, inp);
    }

    fn parse<'a>(&self, inp: ParserInput<'a>) -> (r: POut<'a, Vec<P::V>>) {
        match self.p.parse(inp) {
            Ok(_) => Ok(parse_many(&self.p, inp)),
            Err(e) => Err(e),
        }
    }
}

/// Repeat a parser until it fails, collecting the values; zero repetitions
/// succeed trivially with no consumption.
pub struct NoneOrMany<P> {
    pub p: P,
}

pub fn none_or_many<P: Parser>(p: P) -> (r: NoneOrMany<P>)
    ensures
        r == (NoneOrMany { p }),
{
    NoneOrMany { p }
}

impl<P: Parser> Parser for NoneOrMany<P> {
    type V = Vec<P::V>;

    type SV = Seq<P::SV>;

    open spec fn sp(&self, inp: InputView) -> SpOut<Seq<P::SV>> {
        Ok(sp_many(self.p, inp))
    }

    proof fn lemma_sp_wf(&self, inp: InputView) {
        lemma_sp_many_wf(self.p, inp);
    }

    fn parse<'a>(&self, inp: ParserInput<'a>) -> (r: POut<'a, Vec<P::V>>) {
        Ok(parse_many(&self.p, inp))
    }
}

/// Repeated application of `p`, collecting values, until the terminator `t`
/// succeeds at the current position; the terminator's result ends the run.
/// Fails when `p` fails before the terminator matched, and at a repetition
/// that consumes nothing, which could never reach the terminator.
pub open spec fn sp_until<P: Parser, T: Parser>(p: P, t: T, inp: InputView) -> Result<
    (Seq<P::SV>, ResultView<T::SV>),
    PErr,
>
    decreases inp.text.len(),
{
    match t.sp(inp) {
        Ok(tres) => Ok((Seq::empty(), tres)),
        Err(_) => match p.sp(inp) {
            Err(e) => Err(e),
            Ok(pres) => if pres.remainder.len() < inp.text.len() {
                match sp_until(p, t, pres.to_in()) {
                    Ok(pr) => Ok((seq![pres.val] + pr.0, pr.1)),
                    Err(e) => Err(e),
                }
            } else {
                Err(PErr { pos: pres.pos })
            },
        },
    }
}

/// A terminated repetition consumes a prefix of its input, terminator
/// included.
pub proof fn lemma_sp_until_wf<P: Parser, T: Parser>(p: P, t: T, inp: InputView)
    ensures
        match sp_until(p, t, inp) {
            Ok(pr) => res_wf(inp, pr.1),
            Err(_) => true,
        },
    decreases inp.text.len(),
{
    t.lemma_sp_wf(inp);
    if t.sp(inp) is Err {
        p.lemma_sp_wf(inp);
        if let Ok(pres) = p.sp(inp) {
            if pres.remainder.len() < inp.text.len() {
                lemma_sp_until_wf(p, t, pres.to_in());
                if let Ok(pr) = sp_until(p, t, pres.to_in()) {
                    lemma_res_wf_trans(inp, pres, pr.1, pr.1.val);
                }
            }
        }
    }
}

fn parse_until<'a, P: Parser, T: Parser>(p: &P, t: &T, inp: ParserInput<'a>) -> (r: Result<
    (Vec<P::V>, PRes<'a, T::V>),
    PErr,
>)
    requires
        inp@.wf(),
    ensures
        match (r, sp_until(*p, *t, inp@)) {
            (Ok(rr), Ok(ss)) => rr.0.deep_view() == ss.0 && rr.1@ == ss.1,
            (Err(re), Err(se)) => re == se,
            _ => false,
        },
    decreases inp.text@.len(),
{
    match t.parse(inp) {
        Ok(tres) => {
            let vals = Vec::<P::V>::new();
            proof {
                assert(vals.deep_view() =~= Seq::<P::SV>::empty());
            }
            Ok((vals, tres))
        },
        Err(_) => match p.parse(inp) {
            Err(e) => Err(e),
            Ok(pres) => {
                let ghost gpres = pres@;
                if pres.remainder.len() < inp.text.len() {
                    proof {
                        p.lemma_sp_wf(inp@);
                        lemma_res_wf_next(inp@, pres@);
                    }
                    let next = pres.to_in();
                    match parse_until(p, t, next) {
                        Ok(rr) => {
                            let (mut vals, term) = rr;
                            let ghost gvals = vals@;
                            let ghost gdeep = vals.deep_view();
                            vals.insert(0, pres.val);
                            proof {
                                lemma_vec_deep(&vals);
                                assert(gdeep == seq_deep(gvals)) by {
                                    assert(gdeep =~= seq_deep(gvals));
                                }
                                assert(seq_deep(gvals.insert(0, pres.val)) =~= seq![gpres.val]
                                    + seq_deep(gvals));
                            }
                            Ok((vals, term))
                        },
                        Err(e) => Err(e),
                    }
                } else {
                    Err(PErr { pos: pres.pos })
                }
            },
        },
    }
}

/// Repeat `p`, collecting values, until terminator `t` succeeds at the
/// current position; the terminator's value is combined into (or discarded
/// from) the final result by the combiner, which adopts the terminator's
/// consumption state.
pub struct NoneOrManyUntil<P, T, C> {
    pub p: P,
    pub t: T,
    pub comb: C,
}

pub fn none_or_many_until<P: Parser, T: Parser, C: Combiner<Vec<P::V>, T::V>>(
    p: P,
    t: T,
    comb: C,
) -> (r: NoneOrManyUntil<P, T, C>)
    ensures
        r == (NoneOrManyUntil { p, t, comb }),
{
    NoneOrManyUntil { p, t, comb }
}

impl<P: Parser, T: Parser, C: Combiner<Vec<P::V>, T::V>> Parser for NoneOrManyUntil<P, T, C> {
    type V = C::O;

    type SV = C::SO;

    open spec fn sp(&self, inp: InputView) -> SpOut<C::SO> {
        match sp_until(self.p, self.t, inp) {
            Ok(pr) => Ok(
                ResultView {
                    val: self.comb.spc(pr.0, pr.1.val),
                    pos: pr.1.pos,
                    remainder: pr.1.remainder,
                },
            ),
            Err(e) => Err(e),
        }
    }

    proof fn lemma_sp_wf(&self, inp: InputView) {
        lemma_sp_until_wf(self.p, self.t, inp);
    }

    fn parse<'a>(&self, inp: ParserInput<'a>) -> (r: POut<'a, C::O>) {
        match parse_until(&self.p, &self.t, inp) {
            Ok(rr) => {
                let (vals, term) = rr;
                let v = self.comb.comb(vals, term.val);
                Ok(PRes { val: v, pos: term.pos, remainder: term.remainder })
            },
            Err(e) => Err(e),
        }
    }
}

} // verus!
