use vstd::prelude::*;

use crate::file_pos::{FilePos, advance_pos, lemma_advance_pos_bounds, lemma_advance_pos_concat};

verus! {

/// Input text to be parsed: the unconsumed slice and the position at which
/// it starts inside the original source text.
#[derive(Clone, Copy, Debug)]
pub struct ParserInput<'a> {
    pub text: &'a [char],
    pub pos: FilePos,
}

/// Mathematical model of a parser input.
#[verifier::ext_equal]
pub struct InputView {
    pub text: Seq<char>,
    pub pos: FilePos,
}

impl<'a> View for ParserInput<'a> {
    type V = InputView;

    open spec fn view(&self) -> InputView {
        InputView { text: self.text@, pos: self.pos }
    }
}

impl InputView {
    /// Room for the position to advance over the whole text without the
    /// line or column counter overflowing the machine word.
    pub open spec fn wf(self) -> bool {
        &&& self.pos.line + self.text.len() <= usize::MAX
        &&& self.pos.column + self.text.len() <= usize::MAX
    }
}

impl<'a> ParserInput<'a> {
    pub fn new(to_parse: &'a [char]) -> (r: ParserInput<'a>)
        requires
            to_parse@.len() < usize::MAX,
        ensures
            r@.text == to_parse@,
            r@.pos == (FilePos { line: 1, column: 0 }),
            r@.wf(),
    {
        ParserInput { text: to_parse, pos: FilePos { line: 1, column: 0 } }
    }
}

/// Parser result (success).
#[derive(Clone, Debug, PartialEq)]
pub struct PRes<'a, V> {
    pub val: V,
    pub pos: FilePos,
    pub remainder: &'a [char],
}

/// Mathematical model of a successful parse.
#[verifier::ext_equal]
pub struct ResultView<T> {
    pub val: T,
    pub pos: FilePos,
    pub remainder: Seq<char>,
}

impl<'a, V: DeepView> View for PRes<'a, V> {
    type V = ResultView<V::V>;

    open spec fn view(&self) -> ResultView<V::V> {
        ResultView { val: self.val.deep_view(), pos: self.pos, remainder: self.remainder@ }
    }
}

impl<T> ResultView<T> {
    /// The input a following parser starts from.
    pub open spec fn to_in(self) -> InputView {
        InputView { text: self.remainder, pos: self.pos }
    }

    /// The same consumption state carrying another value.
    pub open spec fn with_val<U>(self, v: U) -> ResultView<U> {
        ResultView { val: v, pos: self.pos, remainder: self.remainder }
    }
}

/// Parser error: only the position at which the failure was detected.
#[derive(Clone, Copy, PartialEq, Eq, Structural, Debug)]
pub struct PErr {
    pub pos: FilePos,
}

/// Parser outcome.
pub type POut<'a, V> = Result<PRes<'a, V>, PErr>;

/// Mathematical model of a parser outcome.
pub type SpOut<T> = Result<ResultView<T>, PErr>;

/// The executable outcome is exactly the modelled outcome.
pub open spec fn out_matches<'a, V: DeepView>(r: POut<'a, V>, s: SpOut<V::V>) -> bool {
    match (r, s) {
        (Ok(rr), Ok(ss)) => rr@ == ss,
        (Err(re), Err(se)) => re == se,
        _ => false,
    }
}

/// A success consumes a prefix of its input: the remainder is the matching
/// suffix of the input text, and the position is the input position advanced
/// over exactly the consumed characters.
pub open spec fn res_wf<T>(inp: InputView, res: ResultView<T>) -> bool {
    &&& res.remainder.len() <= inp.text.len()
    &&& res.remainder == inp.text.skip(inp.text.len() - res.remainder.len())
    &&& res.pos == advance_pos(inp.pos, inp.text.take(inp.text.len() - res.remainder.len()))
}

/// Outcome well-formedness: failures claim nothing, successes consume a
/// prefix of the input.
pub open spec fn sp_wf<T>(inp: InputView, out: SpOut<T>) -> bool {
    match out {
        Ok(res) => res_wf(inp, res),
        Err(_) => true,
    }
}

/// The input derived from a well-formed success is itself well-formed.
pub proof fn lemma_res_wf_next<T>(inp: InputView, res: ResultView<T>)
    requires
        inp.wf(),
        res_wf(inp, res),
    ensures
        res.to_in().wf(),
{
    let k = inp.text.len() - res.remainder.len();
    lemma_advance_pos_bounds(inp.pos, inp.text.take(k));
}

/// A success reached from another success is a success over the combined
/// consumed text: suffixes compose and position arithmetic concatenates.
pub proof fn lemma_res_wf_trans<T1, T2, T3>(
    inp: InputView,
    r1: ResultView<T1>,
    r2: ResultView<T2>,
    v: T3,
)
    requires
        res_wf(inp, r1),
        res_wf(r1.to_in(), r2),
    ensures
        res_wf(inp, ResultView { val: v, pos: r2.pos, remainder: r2.remainder }),
{
    let k1 = inp.text.len() - r1.remainder.len();
    let k2 = r1.remainder.len() - r2.remainder.len();
    assert(r2.remainder =~= inp.text.skip(k1 + k2));
    assert(inp.text.take(k1) + r1.remainder.take(k2) =~= inp.text.take(k1 + k2));
    lemma_advance_pos_concat(inp.pos, inp.text.take(k1), r1.remainder.take(k2));
}

/// A result that consumes nothing is well-formed at its own input.
pub proof fn lemma_res_wf_id<T>(inp: InputView, v: T)
    ensures
        res_wf(inp, ResultView { val: v, pos: inp.pos, remainder: inp.text }),
{
    assert(inp.text.skip(0) =~= inp.text);
    assert(inp.text.take(0) =~= Seq::<char>::empty());
}

/// A parser: a stateless value that can be invoked any number of times,
/// whose whole behaviour is the function `sp` of the input model.
pub trait Parser: Sized {
    /// Executable result value type.
    type V: DeepView<V = Self::SV>;

    /// Mathematical model of the result value type.
    type SV;

    /// What this parser returns, as a function of the input alone.
    spec fn sp(&self, inp: InputView) -> SpOut<Self::SV>;

    /// Every successful outcome consumes a prefix of its input: the
    /// remainder is a suffix of the input text, never enlarged or
    /// reordered, and the position advances over exactly the consumed
    /// characters.
    proof fn lemma_sp_wf(&self, inp: InputView)
        ensures
            sp_wf(inp, self.sp(inp)),
    ;

    /// Run the parser. The outcome is exactly the modelled outcome.
    fn parse<'a>(&self, inp: ParserInput<'a>) -> (r: POut<'a, Self::V>)
        requires
            inp@.wf(),
        ensures
            out_matches(r, self.sp(inp@)),
    ;
}

/// Position of an outcome, success or failure.
pub fn get_p_out_pos<'a, V: DeepView>(pout: &POut<'a, V>) -> (r: FilePos)
    ensures
        r == (match *pout {
            Ok(ps) => ps.pos,
            Err(pe) => pe.pos,
        }),
{
    match pout {
        Ok(p_succ) => p_succ.pos,
        Err(p_err) => p_err.pos,
    }
}

impl<'a, V: DeepView> PRes<'a, V> {
    /// The input a following parser starts from.
    pub fn to_in(&self) -> (r: ParserInput<'a>)
        ensures
            r@ == self@.to_in(),
    {
        ParserInput { pos: self.pos, text: self.remainder }
    }

    /// The same consumption state carrying another value.
    pub fn with_val<W: DeepView>(&self, dat_out: W) -> (r: PRes<'a, W>)
        ensures
            r@ == self@.with_val(dat_out.deep_view()),
    {
        PRes { val: dat_out, pos: self.pos, remainder: self.remainder }
    }
}

} // verus!
