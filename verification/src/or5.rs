use vstd::prelude::*;

use crate::parser::{InputView, POut, PRes, Parser, ParserInput, SpOut};

verus! {

/// Five-way tagged union: the variant records which alternation branch
/// matched, so branches of different result types keep their typing.
#[derive(Clone, Debug, PartialEq, Eq)]
pub enum Or5<A, B, C, D, E> {
    A(A),
    B(B),
    C(C),
    D(D),
    E(E),
}

impl<A: DeepView, B: DeepView, C: DeepView, D: DeepView, E: DeepView> DeepView for Or5<
    A,
    B,
    C,
    D,
    E,
> {
    type V = Or5<A::V, B::V, C::V, D::V, E::V>;

    open spec fn deep_view(&self) -> Or5<A::V, B::V, C::V, D::V, E::V> {
        match self {
            Or5::A(a) => Or5::A(a.deep_view()),
            Or5::B(b) => Or5::B(b.deep_view()),
            Or5::C(c) => Or5::C(c.deep_view()),
            Or5::D(d) => Or5::D(d.deep_view()),
            Or5::E(e) => Or5::E(e.deep_view()),
        }
    }
}

/// Ordered five-way alternation over parsers of possibly different result
/// types; the first success wins and is tagged with its branch; if every
/// branch fails, the last branch's failure propagates.
pub struct Or5Parser<PA, PB, PC, PD, PE> {
    pub a: PA,
    pub b: PB,
    pub c: PC,
    pub d: PD,
    pub e: PE,
}

pub fn or5<PA: Parser, PB: Parser, PC: Parser, PD: Parser, PE: Parser>(
    a: PA,
    b: PB,
    c: PC,
    d: PD,
    e: PE,
) -> (r: Or5Parser<PA, PB, PC, PD, PE>)
    ensures
        r == (Or5Parser { a, b, c, d, e }),
{
    Or5Parser { a, b, c, d, e }
}

impl<PA: Parser, PB: Parser, PC: Parser, PD: Parser, PE: Parser> Parser for Or5Parser<
    PA,
    PB,
    PC,
    PD,
    PE,
> {
    type V = Or5<PA::V, PB::V, PC::V, PD::V, PE::V>;

    type SV = Or5<PA::SV, PB::SV, PC::SV, PD::SV, PE::SV>;

    open spec fn sp(&self, inp: InputView) -> SpOut<Self::SV> {
        match self.a.sp(inp) {
            Ok(ar) => Ok(ar.with_val(Or5::A(ar.val))),
            Err(_) => match self.b.sp(inp) {
                Ok(br) => Ok(br.with_val(Or5::B(br.val))),
                Err(_) => match self.c.sp(inp) {
                    Ok(cr) => Ok(cr.with_val(Or5::C(cr.val))),
                    Err(_) => match self.d.sp(inp) {
                        Ok(dr) => Ok(dr.with_val(Or5::D(dr.val))),
                        Err(_) => match self.e.sp(inp) {
                            Ok(er) => Ok(er.with_val(Or5::E(er.val))),
                            Err(e) => Err(e),
                        },
                    },
                },
            },
        }
    }

    proof fn lemma_sp_wf(&self, inp: InputView) {
        self.a.lemma_sp_wf(inp);
        self.b.lemma_sp_wf(inp);
        self.c.lemma_sp_wf(inp);
        self.d.lemma_sp_wf(inp);
        self.e.lemma_sp_wf(inp);
    }

    fn parse<'a>(&self, inp: ParserInput<'a>) -> (r: POut<'a, Self::V>) {
        match self.a.parse(inp) {
            Ok(ar) => Ok(PRes { val: Or5::A(ar.val), pos: ar.pos, remainder: ar.remainder }),
            Err(_) => match self.b.parse(inp) {
                Ok(br) => Ok(PRes { val: Or5::B(br.val), pos: br.pos, remainder: br.remainder }),
                Err(_) => match self.c.parse(inp) {
                    Ok(cr) => Ok(
                        PRes { val: Or5::C(cr.val), pos: cr.pos, remainder: cr.remainder },
                    ),
                    Err(_) => match self.d.parse(inp) {
                        Ok(dr) => Ok(
                            PRes { val: Or5::D(dr.val), pos: dr.pos, remainder: dr.remainder },
                        ),
                        Err(_) => match self.e.parse(inp) {
                            Ok(er) => Ok(
                                PRes {
                                    val: Or5::E(er.val),
                                    pos: er.pos,
                                    remainder: er.remainder,
                                },
                            ),
                            Err(e) => Err(e),
                        },
                    },
                },
            },
        }
    }
}

} // verus!
