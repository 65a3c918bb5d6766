use vstd::prelude::*;

use crate::combinators::{Defer, Or};
use crate::file_pos::{lemma_advance_pos_monotone, pos_le};
use crate::modifiers::ConsumeAll;
use crate::parser::{InputView, Parser};

verus! {

/// A successful parse's remainder is a suffix of the original text: never
/// enlarged, never reordered. Holds of every parser of the library, since
/// it is an obligation of the `Parser` trait.
pub proof fn lemma_remainder_suffix<P: Parser>(p: P, inp: InputView)
    ensures
        match p.sp(inp) {
            Ok(res) => res.remainder.len() <= inp.text.len() && res.remainder
                == inp.text.skip(inp.text.len() - res.remainder.len()),
            Err(_) => true,
        },
{
    p.lemma_sp_wf(inp);
}

/// The position advances monotonically along any successful parse, and so
/// along any chain of successful sequencing steps: consumed line
/// terminators increment the line and reset the column, all other consumed
/// characters increment the column.
pub proof fn lemma_position_monotone<P: Parser>(p: P, inp: InputView)
    requires
        inp.wf(),
    ensures
        match p.sp(inp) {
            Ok(res) => pos_le(inp.pos, res.pos),
            Err(_) => true,
        },
{
    p.lemma_sp_wf(inp);
    if let Ok(res) = p.sp(inp) {
        let k = inp.text.len() - res.remainder.len();
        lemma_advance_pos_monotone(inp.pos, inp.text.take(k));
    }
}

/// Ordered alternation leaks no state: when `a` fails on an input, the
/// outcome of `or(a, b)` there equals `b`'s outcome on the original input,
/// exactly as if `b` had been invoked alone.
pub proof fn lemma_or_backtracks<A: Parser, B: Parser<V = A::V, SV = A::SV>>(
    o: Or<A, B>,
    inp: InputView,
)
    requires
        o.a.sp(inp) is Err,
    ensures
        o.sp(inp) == o.b.sp(inp),
{
}

/// Laziness changes nothing observable: on any two inputs, the deferred
/// parser's outcomes equal the wrapped parser's own outcomes.
pub proof fn lemma_defer_transparent<P: Parser>(d: Defer<P>, i1: InputView, i2: InputView)
    ensures
        d.sp(i1) == d.p.sp(i1),
        d.sp(i2) == d.p.sp(i2),
{
}

/// The top-level wrapper succeeds exactly when the wrapped parser succeeds
/// with an empty remainder, and then surfaces that result unchanged.
pub proof fn lemma_consume_all<P: Parser>(c: ConsumeAll<P>, inp: InputView)
    ensures
        c.sp(inp) is Ok <==> (match c.p.sp(inp) {
            Ok(res) => res.remainder.len() == 0,
            Err(_) => false,
        }),
        c.sp(inp) is Ok ==> c.sp(inp) == c.p.sp(inp),
{
}

} // verus!
