//! The children of the root container visual, bottom of the z-order first.

use vstd::prelude::*;

use crate::square::Visual;

verus! {

/// An ordered list of visuals: later ones are drawn over earlier ones, and
/// the last one is on top.
pub struct VisualTree {
    children: Vec<Visual>,
}

impl View for VisualTree {
    type V = Seq<Visual>;

    closed spec fn view(&self) -> Seq<Visual> {
        self.children@
    }
}

/// `after` is `before` with exactly one visual placed on top of it.
pub open spec fn grows_by_one(before: Seq<Visual>, after: Seq<Visual>) -> bool {
    &&& after.len() == before.len() + 1
    &&& after.subrange(0, before.len() as int) == before
}

impl VisualTree {
    /// A tree with no children.
    pub fn new() -> (t: VisualTree)
        ensures
            t@ == Seq::<Visual>::empty(),
    {
        VisualTree { children: Vec::new() }
    }

    /// Places `visual` on top of all the others.
    pub fn insert_at_top(&mut self, visual: Visual)
        ensures
            final(self)@ == old(self)@.push(visual),
            grows_by_one(old(self)@, final(self)@),
    {
        self.children.push(visual);
        proof {
            lemma_push_grows_by_one(old(self)@, visual);
        }
    }

    /// The number of children.
    pub fn len(&self) -> (n: usize)
        ensures
            n == self@.len(),
    {
        self.children.len()
    }

    /// The child at position `i`, counted from the bottom.
    pub fn get(&self, i: usize) -> (v: &Visual)
        requires
            i < self@.len(),
        ensures
            *v == self@[i as int],
    {
        &self.children[i]
    }

    /// The child on top, if any.
    pub fn top(&self) -> (v: Option<&Visual>)
        ensures
            self@.len() == 0 ==> v.is_none(),
            self@.len() > 0 ==> v == Some(&self@.last()),
    {
        if self.children.len() == 0 {
            None
        } else {
            Some(&self.children[self.children.len() - 1])
        }
    }
}

/// Placing one visual on top of a tree grows it by exactly that one.
pub proof fn lemma_push_grows_by_one(before: Seq<Visual>, v: Visual)
    ensures
        grows_by_one(before, before.push(v)),
{
    assert(before.push(v).subrange(0, before.len() as int) =~= before);
}

/// Placing visuals on top never removes one: along a run of trees in which
/// each one is the one before with a single visual placed on top, every tree
/// keeps all of an earlier one's children in place and has one more child
/// for each step between them.
pub proof fn lemma_insertions_keep_children(history: Seq<Seq<Visual>>)
    requires
        forall|k: int| 0 <= k < history.len() - 1 ==> grows_by_one(#[trigger] history[k], history[k + 1]),
    ensures
        forall|i: int, j: int|
            0 <= i <= j < history.len() ==> {
                &&& #[trigger] history[j].len() == #[trigger] history[i].len() + (j - i)
                &&& history[j].subrange(0, history[i].len() as int) == history[i]
            },
    decreases history.len(),
{
    if history.len() > 1 {
        let n = history.len() - 1;
        let front = history.subrange(0, n as int);
        assert forall|k: int| 0 <= k < front.len() - 1 implies grows_by_one(
            #[trigger] front[k],
            front[k + 1],
        ) by {
            assert(grows_by_one(history[k], history[k + 1]));
        }
        lemma_insertions_keep_children(front);
        assert forall|i: int, j: int| 0 <= i <= j < history.len() implies {
            &&& #[trigger] history[j].len() == #[trigger] history[i].len() + (j - i)
            &&& history[j].subrange(0, history[i].len() as int) == history[i]
        } by {
            if j == n {
                if i < n {
                    assert(front[i] == history[i]);
                    assert(front[n - 1] == history[n - 1]);
                    assert(grows_by_one(history[n - 1], history[n]));
                    let a = history[i];
                    let b = history[n - 1];
                    let c = history[n];
                    assert(b.subrange(0, a.len() as int) == a);
                    assert(c.subrange(0, b.len() as int) == b);
                    assert(c.subrange(0, a.len() as int) =~= b.subrange(0, a.len() as int));
                } else {
                    assert(history[j].subrange(0, history[i].len() as int) =~= history[i]);
                }
            } else {
                assert(front[i] == history[i]);
                assert(front[j] == history[j]);
            }
        }
    } else {
        assert forall|i: int, j: int| 0 <= i <= j < history.len() implies {
            &&& #[trigger] history[j].len() == #[trigger] history[i].len() + (j - i)
            &&& history[j].subrange(0, history[i].len() as int) == history[i]
        } by {
            assert(history[j].subrange(0, history[i].len() as int) =~= history[i]);
        }
    }
}

} // verus!
