use vstd::prelude::*;

use crate::combiners::Combiner;
use crate::parser::{
    InputView, PErr, POut, PRes, Parser, ParserInput, ResultView, SpOut, lemma_res_wf_next,
    lemma_res_wf_trans, res_wf,
};

verus! {

/// The left fold of a chain: from partial state `acc`, run the parsers from
/// index `i` on, each on the previous remainder, folding the values with the
/// combiner; any failure aborts the whole chain.
pub open spec fn sp_chain_from<
    P: Parser,
    C: Combiner<P::V, P::V, O = P::V, SO = P::SV>,
>(ps: Seq<P>, comb: C, acc: ResultView<P::SV>, i: int) -> SpOut<P::SV>
    decreases ps.len() - i,
{
    if i >= ps.len() {
        Ok(acc)
    } else {
        match ps[i].sp(acc.to_in()) {
            Ok(next) => sp_chain_from(
                ps,
                comb,
                ResultView {
                    val: comb.spc(acc.val, next.val),
                    pos: next.pos,
                    remainder: next.remainder,
                },
                i + 1,
            ),
            Err(e) => Err(e),
        }
    }
}

/// A chain fold started from a well-formed partial state stays within the
/// original input.
pub proof fn lemma_sp_chain_from_wf<
    P: Parser,
    C: Combiner<P::V, P::V, O = P::V, SO = P::SV>,
>(inp: InputView, ps: Seq<P>, comb: C, acc: ResultView<P::SV>, i: int)
    requires
        res_wf(inp, acc),
    ensures
        match sp_chain_from(ps, comb, acc, i) {
            Ok(res) => res_wf(inp, res),
            Err(_) => true,
        },
    decreases ps.len() - i,
{
    if i < ps.len() {
        ps[i].lemma_sp_wf(acc.to_in());
        if let Ok(next) = ps[i].sp(acc.to_in()) {
            lemma_res_wf_trans(inp, acc, next, comb.spc(acc.val, next.val));
            lemma_sp_chain_from_wf(
                inp,
                ps,
                comb,
                ResultView {
                    val: comb.spc(acc.val, next.val),
                    pos: next.pos,
                    remainder: next.remainder,
                },
                i + 1,
            );
        }
    }
}

/// Sequence an ordered list of same-typed parsers, each consuming from the
/// prior one's remainder, folding the values left to right with the
/// combiner; any failure aborts the whole chain, and an empty chain fails.
pub struct Chain<P, C> {
    pub ps: Vec<P>,
    pub comb: C,
}

pub fn chain<P: Parser, C: Combiner<P::V, P::V, O = P::V, SO = P::SV>>(ps: Vec<P>, comb: C) -> (r:
    Chain<P, C>)
    ensures
        r == (Chain { ps, comb }),
{
    Chain { ps, comb }
}

impl<P: Parser, C: Combiner<P::V, P::V, O = P::V, SO = P::SV>> Parser for Chain<P, C> {
    type V = P::V;

    type SV = P::SV;

    open spec fn sp(&self, inp: InputView) -> SpOut<P::SV> {
        if self.ps@.len() == 0 {
            Err(PErr { pos: inp.pos })
        } else {
            match self.ps@[0].sp(inp) {
                Ok(first) => sp_chain_from(self.ps@, self.comb, first, 1),
                Err(e) => Err(e),
            }
        }
    }

    proof fn lemma_sp_wf(&self, inp: InputView) {
        if self.ps@.len() > 0 {
            self.ps@[0].lemma_sp_wf(inp);
            if let Ok(first) = self.ps@[0].sp(inp) {
                lemma_sp_chain_from_wf(inp, self.ps@, self.comb, first, 1);
            }
        }
    }

    fn parse<'a>(&self, inp: ParserInput<'a>) -> (r: POut<'a, P::V>) {
        if self.ps.len() == 0 {
            return Err(PErr { pos: inp.pos });
        }
        let mut out = match self.ps[0].parse(inp) {
            Ok(first) => first,
            Err(e) => {
                return Err(e);
            },
        };
        proof {
            self.ps@[0].lemma_sp_wf(inp@);
        }
        let mut i: usize = 1;
        while i < self.ps.len()
            invariant
                1 <= i <= self.ps@.len(),
                inp@.wf(),
                res_wf(inp@, out@),
                self.sp(inp@) == sp_chain_from(self.ps@, self.comb, out@, i as int),
            decreases self.ps@.len() - i,
        {
            proof {
                lemma_res_wf_next(inp@, out@);
            }
            let next_in = out.to_in();
            let ghost gout = out@;
            match self.ps[i].parse(next_in) {
                Ok(next) => {
                    proof {
                        self.ps@[i as int].lemma_sp_wf(next_in@);
                        lemma_res_wf_trans(
                            inp@,
                            gout,
                            next@,
                            self.comb.spc(gout.val, next@.val),
                        );
                    }
                    let v = self.comb.comb(out.val, next.val);
                    out = PRes { val: v, pos: next.pos, remainder: next.remainder };
                },
                Err(e) => {
                    return Err(e);
                },
            }
            i += 1;
        }
        Ok(out)
    }
}

/// Run an ordered list of same-typed parsers in sequence, requiring all of
/// them to succeed, keeping only the value of the parser at the designated
/// index; position and remainder come from the last parser. Fails when the
/// list is empty or the index is out of range.
pub open spec fn sp_chain_sel_from<P: Parser>(
    ps: Seq<P>,
    index: int,
    sel: P::SV,
    cur: InputView,
    i: int,
) -> SpOut<P::SV>
    decreases ps.len() - i,
{
    if i >= ps.len() {
        Ok(ResultView { val: sel, pos: cur.pos, remainder: cur.text })
    } else {
        match ps[i].sp(cur) {
            Ok(next) => sp_chain_sel_from(
                ps,
                index,
                if i == index {
                    next.val
                } else {
                    sel
                },
                next.to_in(),
                i + 1,
            ),
            Err(e) => Err(e),
        }
    }
}

pub proof fn lemma_sp_chain_sel_from_wf<P: Parser>(
    inp: InputView,
    ps: Seq<P>,
    index: int,
    sel: P::SV,
    cur: ResultView<P::SV>,
    i: int,
)
    requires
        res_wf(inp, cur),
    ensures
        match sp_chain_sel_from(ps, index, sel, cur.to_in(), i) {
            Ok(res) => res_wf(inp, res),
            Err(_) => true,
        },
    decreases ps.len() - i,
{
    if i >= ps.len() {
        assert(res_wf(
            inp,
            ResultView { val: sel, pos: cur.to_in().pos, remainder: cur.to_in().text },
        ));
    } else {
        ps[i].lemma_sp_wf(cur.to_in());
        if let Ok(next) = ps[i].sp(cur.to_in()) {
            lemma_res_wf_trans(inp, cur, next, next.val);
            let stepped = ResultView { val: next.val, pos: next.pos, remainder: next.remainder };
            lemma_sp_chain_sel_from_wf(
                inp,
                ps,
                index,
                if i == index {
                    next.val
                } else {
                    sel
                },
                stepped,
                i + 1,
            );
            assert(stepped.to_in() == next.to_in());
        }
    }
}

pub struct ChainSelect<P> {
    pub ps: Vec<P>,
    pub index: usize,
}

pub fn chain_select<P: Parser>(ps: Vec<P>, index: usize) -> (r: ChainSelect<P>)
    ensures
        r == (ChainSelect { ps, index }),
{
    ChainSelect { ps, index }
}

impl<P: Parser> Parser for ChainSelect<P> {
    type V = P::V;

    type SV = P::SV;

    open spec fn sp(&self, inp: InputView) -> SpOut<P::SV> {
        if self.ps@.len() == 0 || self.index >= self.ps@.len() {
            Err(PErr { pos: inp.pos })
        } else {
            match self.ps@[0].sp(inp) {
                Ok(first) => sp_chain_sel_from(
                    self.ps@,
                    self.index as int,
                    first.val,
                    first.to_in(),
                    1,
                ),
                Err(e) => Err(e),
            }
        }
    }

    proof fn lemma_sp_wf(&self, inp: InputView) {
        if self.ps@.len() > 0 && self.index < self.ps@.len() {
            self.ps@[0].lemma_sp_wf(inp);
            if let Ok(first) = self.ps@[0].sp(inp) {
                lemma_sp_chain_sel_from_wf(
                    inp,
                    self.ps@,
                    self.index as int,
                    first.val,
                    first,
                    1,
                );
            }
        }
    }

    fn parse<'a>(&self, inp: ParserInput<'a>) -> (r: POut<'a, P::V>) {
        if self.ps.len() == 0 || self.index >= self.ps.len() {
            return Err(PErr { pos: inp.pos });
        }
        let first = match self.ps[0].parse(inp) {
            Ok(first) => first,
            Err(e) => {
                return Err(e);
            },
        };
        proof {
            self.ps@[0].lemma_sp_wf(inp@);
        }
        let mut sel = first.val;
        let mut cur = ParserInput { text: first.remainder, pos: first.pos };
        let ghost gfirst = ResultView {
            val: sel.deep_view(),
            pos: first.pos,
            remainder: first.remainder@,
        };
        let mut i: usize = 1;
        while i < self.ps.len()
            invariant
                1 <= i <= self.ps@.len(),
                self.index < self.ps@.len(),
                inp@.wf(),
                res_wf(inp@, (ResultView { val: sel.deep_view(), pos: cur.pos, remainder: cur.text@ })),
                self.sp(inp@) == sp_chain_sel_from(
                    self.ps@,
                    self.index as int,
                    sel.deep_view(),
                    cur@,
                    i as int,
                ),
            decreases self.ps@.len() - i,
        {
            let ghost gstate = ResultView {
                val: sel.deep_view(),
                pos: cur.pos,
                remainder: cur.text@,
            };
            proof {
                lemma_res_wf_next(inp@, gstate);
                assert(gstate.to_in() == cur@);
            }
            match self.ps[i].parse(cur) {
                Ok(next) => {
                    proof {
                        self.ps@[i as int].lemma_sp_wf(cur@);
                        lemma_res_wf_trans(inp@, gstate, next@, next@.val);
                    }
                    cur = ParserInput { text: next.remainder, pos: next.pos };
                    if i == self.index {
                        sel = next.val;
                    }
                },
                Err(e) => {
                    return Err(e);
                },
            }
            i += 1;
        }
        Ok(PRes { val: sel, pos: cur.pos, remainder: cur.text })
    }
}

/// Ordered alternation over a list of same-typed parsers: the first success
/// wins; the last branch's failure propagates, and an empty list fails.
pub open spec fn sp_or_chain_from<P: Parser>(ps: Seq<P>, inp: InputView, i: int) -> SpOut<P::SV>
    decreases ps.len() - i,
{
    if i >= ps.len() {
        Err(PErr { pos: inp.pos })
    } else {
        match ps[i].sp(inp) {
            Ok(res) => Ok(res),
            Err(e) => if i + 1 >= ps.len() {
                Err(e)
            } else {
                sp_or_chain_from(ps, inp, i + 1)
            },
        }
    }
}

pub proof fn lemma_sp_or_chain_from_wf<P: Parser>(ps: Seq<P>, inp: InputView, i: int)
    ensures
        match sp_or_chain_from(ps, inp, i) {
            Ok(res) => res_wf(inp, res),
            Err(_) => true,
        },
    decreases ps.len() - i,
{
    if i < ps.len() {
        ps[i].lemma_sp_wf(inp);
        if ps[i].sp(inp) is Err && i + 1 < ps.len() {
            lemma_sp_or_chain_from_wf(ps, inp, i + 1);
        }
    }
}

pub struct OrChain<P> {
    pub ps: Vec<P>,
}

pub fn or_chain<P: Parser>(ps: Vec<P>) -> (r: OrChain<P>)
    ensures
        r == (OrChain { ps }),
{
    OrChain { ps }
}

impl<P: Parser> Parser for OrChain<P> {
    type V = P::V;

    type SV = P::SV;

    open spec fn sp(&self, inp: InputView) -> SpOut<P::SV> {
        sp_or_chain_from(self.ps@, inp, 0)
    }

    proof fn lemma_sp_wf(&self, inp: InputView) {
        lemma_sp_or_chain_from_wf(self.ps@, inp, 0);
    }

    fn parse<'a>(&self, inp: ParserInput<'a>) -> (r: POut<'a, P::V>) {
        let n = self.ps.len();
        if n == 0 {
            return Err(PErr { pos: inp.pos });
        }
        let mut i: usize = 0;
        loop
            invariant
                i < n,
                n == self.ps@.len(),
                inp@.wf(),
                self.sp(inp@) == sp_or_chain_from(self.ps@, inp@, i as int),
            decreases self.ps@.len() - i,
        {
            match self.ps[i].parse(inp) {
                Ok(res) => {
                    return Ok(res);
                },
                Err(e) => {
                    if i + 1 >= n {
                        return Err(e);
                    }
                },
            }
            i += 1;
        }
    }
}

} // verus!
