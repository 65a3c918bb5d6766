use vstd::prelude::*;

use crate::parser::{POut, PRes, ResultView};

verus! {

/// Merges the values of two successful sub-parses into one value; the
/// combinator that applies it always adopts the second operand's
/// consumption state (position and remainder), so a combiner speaks of
/// values alone.
pub trait Combiner<A: DeepView, B: DeepView>: Sized {
    /// Executable merged value type.
    type O: DeepView<V = Self::SO>;

    /// Mathematical model of the merged value type.
    type SO;

    /// The merged value.
    spec fn spc(&self, a: A::V, b: B::V) -> Self::SO;

    fn comb(&self, a: A, b: B) -> (r: Self::O)
        ensures
            r.deep_view() == self.spc(a.deep_view(), b.deep_view()),
    ;
}

/// Keep both values, as a pair.
#[derive(Clone, Copy, Debug, PartialEq, Eq)]
pub struct LeftRight;

impl<A: DeepView, B: DeepView> Combiner<A, B> for LeftRight {
    type O = (A, B);

    type SO = (A::V, B::V);

    open spec fn spc(&self, a: A::V, b: B::V) -> (A::V, B::V) {
        (a, b)
    }

    fn comb(&self, a: A, b: B) -> (r: (A, B)) {
        (a, b)
    }
}

/// Keep the first value only.
#[derive(Clone, Copy, Debug, PartialEq, Eq)]
pub struct TakeLeft;

impl<A: DeepView, B: DeepView> Combiner<A, B> for TakeLeft {
    type O = A;

    type SO = A::V;

    open spec fn spc(&self, a: A::V, b: B::V) -> A::V {
        a
    }

    fn comb(&self, a: A, b: B) -> (r: A) {
        a
    }
}

/// Keep the second value only.
#[derive(Clone, Copy, Debug, PartialEq, Eq)]
pub struct TakeRight;

impl<A: DeepView, B: DeepView> Combiner<A, B> for TakeRight {
    type O = B;

    type SO = B::V;

    open spec fn spc(&self, a: A::V, b: B::V) -> B::V {
        b
    }

    fn comb(&self, a: A, b: B) -> (r: B) {
        b
    }
}

/// Join two characters into a two-character string.
#[derive(Clone, Copy, Debug, PartialEq, Eq)]
pub struct CharPair;

impl Combiner<char, char> for CharPair {
    type O = Vec<char>;

    type SO = Seq<char>;

    open spec fn spc(&self, a: char, b: char) -> Seq<char> {
        seq![a, b]
    }

    fn comb(&self, a: char, b: char) -> (r: Vec<char>) {
        let mut r: Vec<char> = Vec::new();
        r.push(a);
        r.push(b);
        proof {
            assert(r.deep_view() =~= seq![a, b]);
        }
        r
    }
}

/// The failure-propagation law shared by every binary combiner: only if
/// both operands succeeded is the value combiner applied, and the merged
/// result adopts the second operand's position and remainder; otherwise the
/// first failure wins.
pub fn gen_comb<'a, A: DeepView, B: DeepView, C: Combiner<A, B>>(
    a: POut<'a, A>,
    b: POut<'a, B>,
    comb: &C,
) -> (r: POut<'a, C::O>)
    ensures
        ({
            match (a, b) {
                (Ok(ar), Ok(br)) => r matches Ok(rr) && rr@ == (ResultView {
                    val: comb.spc(ar@.val, br@.val),
                    pos: br@.pos,
                    remainder: br@.remainder,
                }),
                (Err(ae), _) => r matches Err(re) && re == ae,
                (Ok(_), Err(be)) => r matches Err(re) && re == be,
            }
        }),
{
    match (a, b) {
        (Ok(ar), Ok(br)) => {
            let v = comb.comb(ar.val, br.val);
            Ok(PRes { val: v, pos: br.pos, remainder: br.remainder })
        },
        (Err(ae), _) => Err(ae),
        (Ok(_), Err(be)) => Err(be),
    }
}

} // verus!
