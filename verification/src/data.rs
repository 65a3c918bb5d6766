use vstd::prelude::*;

verus! {

/// Result data: a parser's value type must be duplicable without changing
/// its mathematical value, so that a stored constant can be handed out on
/// every invocation.
pub trait PResData: DeepView + Sized {
    /// A duplicate with the same mathematical value.
    fn dup(&self) -> (r: Self)
        ensures
            r.deep_view() == self.deep_view(),
    ;
}

/// The elementwise mathematical value of a sequence of values.
pub open spec fn seq_deep<T: DeepView>(s: Seq<T>) -> Seq<T::V> {
    Seq::new(s.len(), |i: int| s[i].deep_view())
}

/// A vector's deep view is the elementwise deep view of its contents.
pub proof fn lemma_vec_deep<T: DeepView>(v: &Vec<T>)
    ensures
        v.deep_view() == seq_deep(v@),
{
    assert(v.deep_view() =~= seq_deep(v@));
}

impl PResData for char {
    fn dup(&self) -> (r: char) {
        *self
    }
}

impl PResData for bool {
    fn dup(&self) -> (r: bool) {
        *self
    }
}

impl PResData for () {
    fn dup(&self) -> (r: ()) {
    }
}

impl<A: PResData, B: PResData> PResData for (A, B) {
    fn dup(&self) -> (r: (A, B)) {
        (self.0.dup(), self.1.dup())
    }
}

impl<T: PResData> PResData for Option<T> {
    fn dup(&self) -> (r: Option<T>) {
        match self {
            Some(t) => Some(t.dup()),
            None => None,
        }
    }
}

impl<T: PResData> PResData for Vec<T> {
    fn dup(&self) -> (r: Vec<T>) {
        let mut r: Vec<T> = Vec::new();
        let mut i: usize = 0;
        while i < self.len()
            invariant
                i <= self@.len(),
                r.deep_view() == self.deep_view().take(i as int),
            decreases self@.len() - i,
        {
            let ghost prev = r@;
            let ghost prevd = r.deep_view();
            proof {
                assert(prevd =~= Seq::new(prev.len(), |k: int| prev[k].deep_view()));
            }
            let x = self[i].dup();
            r.push(x);
            i += 1;
            proof {
                assert forall|j: int| 0 <= j < i as int implies r.deep_view()[j]
                    == self.deep_view()[j] by {
                    assert(r@[j] == prev.push(x)[j]);
                    if j < i - 1 {
                        assert(r.deep_view()[j] == prevd[j]);
                        assert(prevd[j] == self.deep_view().take(i - 1)[j]);
                    } else {
                        assert(r@[j] == x);
                        assert(x.deep_view() == self@[j].deep_view());
                    }
                }
                assert(r.deep_view() =~= self.deep_view().take(i as int));
            }
        }
        proof {
            assert(self.deep_view().take(self@.len() as int) =~= self.deep_view());
        }
        r
    }
}

} // verus!
