use vstd::prelude::*;

verus! {

/// A position inside the source text: 1-based line, 0-based column.
#[derive(Clone, Copy, PartialEq, Eq, Structural, Debug)]
pub struct FilePos {
    pub line: usize,
    pub column: usize,
}

impl View for FilePos {
    type V = FilePos;

    open spec fn view(&self) -> FilePos {
        *self
    }
}

impl DeepView for FilePos {
    type V = FilePos;

    open spec fn deep_view(&self) -> FilePos {
        *self
    }
}

impl FilePos {
    pub fn new(line: usize, column: usize) -> (r: FilePos)
        ensures
            r.line == line,
            r.column == column,
    {
        FilePos { line, column }
    }
}

/// Position after consuming one character: a line terminator starts a new
/// line and resets the column, any other character moves one column right.
/// Walking "\r\n" through this rule lands on the same position as treating
/// it as a single line terminator, so no lookahead is needed.
pub open spec fn advance_one(p: FilePos, c: char) -> FilePos {
    if c == '\n' {
        FilePos { line: (p.line + 1) as usize, column: 0 }
    } else {
        FilePos { line: p.line, column: (p.column + 1) as usize }
    }
}

/// Position after consuming a sequence of characters, front to back.
pub open spec fn advance_pos(p: FilePos, s: Seq<char>) -> FilePos
    decreases s.len(),
{
    if s.len() == 0 {
        p
    } else {
        advance_pos(advance_one(p, s[0]), s.skip(1))
    }
}

/// Ordering on positions: `a` comes no later than `b`.
pub open spec fn pos_le(a: FilePos, b: FilePos) -> bool {
    a.line < b.line || (a.line == b.line && a.column <= b.column)
}

/// Consuming text never moves line or column further than one step per
/// character consumed.
pub proof fn lemma_advance_pos_bounds(p: FilePos, s: Seq<char>)
    ensures
        advance_pos(p, s).line <= p.line + s.len(),
        advance_pos(p, s).column <= p.column + s.len(),
    decreases s.len(),
{
    if s.len() > 0 {
        lemma_advance_pos_bounds(advance_one(p, s[0]), s.skip(1));
    }
}

/// Walking a concatenation equals walking the parts one after the other.
pub proof fn lemma_advance_pos_concat(p: FilePos, s1: Seq<char>, s2: Seq<char>)
    ensures
        advance_pos(p, s1 + s2) == advance_pos(advance_pos(p, s1), s2),
    decreases s1.len(),
{
    if s1.len() == 0 {
        assert(s1 + s2 =~= s2);
    } else {
        assert((s1 + s2)[0] == s1[0]);
        assert((s1 + s2).skip(1) =~= s1.skip(1) + s2);
        lemma_advance_pos_concat(advance_one(p, s1[0]), s1.skip(1), s2);
    }
}

/// The position advances monotonically along consumed text: a line
/// terminator increments the line and resets the column to zero, any other
/// character increments the column by one, so the position never moves back.
pub proof fn lemma_advance_pos_monotone(p: FilePos, s: Seq<char>)
    requires
        p.line + s.len() <= usize::MAX,
        p.column + s.len() <= usize::MAX,
    ensures
        pos_le(p, advance_pos(p, s)),
    decreases s.len(),
{
    if s.len() > 0 {
        let p1 = advance_one(p, s[0]);
        lemma_advance_pos_monotone(p1, s.skip(1));
    }
}

/// Exact position arithmetic for a consumed slice of characters.
pub fn advance(p: FilePos, s: &[char]) -> (r: FilePos)
    requires
        p.line + s@.len() <= usize::MAX,
        p.column + s@.len() <= usize::MAX,
    ensures
        r == advance_pos(p, s@),
{
    let n = s.len();
    let mut cur = p;
    let mut i: usize = 0;
    while i < n
        invariant
            i <= n,
            n == s@.len(),
            cur == advance_pos(p, s@.take(i as int)),
            cur.line + (n - i) <= usize::MAX,
            cur.column + (n - i) <= usize::MAX,
        decreases n - i,
    {
        let c = s[i];
        proof {
            lemma_advance_pos_concat(p, s@.take(i as int), seq![s@[i as int]]);
            assert(s@.take(i as int) + seq![s@[i as int]] =~= s@.take(i as int + 1));
            assert(seq![c].skip(1) =~= Seq::<char>::empty());
            assert(advance_pos(advance_one(cur, c), seq![c].skip(1)) == advance_one(cur, c));
            assert(advance_pos(cur, seq![c]) == advance_one(cur, c));
            assert(advance_pos(p, s@.take(i as int + 1)) == advance_one(cur, c));
        }
        if c == '\n' {
            cur = FilePos { line: cur.line + 1, column: 0 };
        } else {
            cur = FilePos { line: cur.line, column: cur.column + 1 };
        }
        i += 1;
    }
    proof {
        assert(s@.take(n as int) =~= s@);
    }
    cur
}

} // verus!
