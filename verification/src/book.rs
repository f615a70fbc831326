//! The stored credit lines, one per borrower.

use vstd::prelude::*;

use crate::account::AccountId;
use crate::types::{CreditLineData, CreditLineView, line_valid};

verus! {

/// The credit lines of all borrowers, keyed by borrower.
pub struct LineBook {
    lines: Vec<CreditLineData>,
}

impl LineBook {
    /// Whether some stored line belongs to `k`.
    pub closed spec fn has_key(&self, k: Seq<u8>) -> bool {
        exists|i: int| 0 <= i < self.lines@.len() && #[trigger] self.lines@[i].borrower@ == k
    }

    /// The position of the line of `k`.
    closed spec fn index_of(&self, k: Seq<u8>) -> int {
        choose|i: int| 0 <= i < self.lines@.len() && #[trigger] self.lines@[i].borrower@ == k
    }

    /// Each borrower has at most one line, and every line is valid.
    pub closed spec fn wf(&self) -> bool {
        &&& forall|i: int| 0 <= i < self.lines@.len() ==> line_valid(#[trigger] self.lines@[i]@)
        &&& forall|i: int, j: int|
            0 <= i < self.lines@.len() && 0 <= j < self.lines@.len() && i != j
                ==> #[trigger] self.lines@[i].borrower@ != #[trigger] self.lines@[j].borrower@
    }

    proof fn lemma_index_of(&self, k: Seq<u8>)
        requires
            self.has_key(k),
        ensures
            0 <= self.index_of(k) < self.lines@.len(),
            self.lines@[self.index_of(k)].borrower@ == k,
    {
    }

    /// Each line is stored under its borrower and is valid.
    pub proof fn lemma_view_wf(&self)
        requires
            self.wf(),
        ensures
            book_valid(self@),
    {
        assert forall|k: Seq<u8>| #[trigger] self@.contains_key(k) implies self@[k].borrower == k
            && line_valid(self@[k]) by {
            self.lemma_index_of(k);
        }
    }

    /// A book with no lines.
    pub fn new() -> (r: LineBook)
        ensures
            r.wf(),
            r@ == Map::<Seq<u8>, CreditLineView>::empty(),
    {
        let r = LineBook { lines: Vec::new() };
        assert(r@ =~= Map::<Seq<u8>, CreditLineView>::empty());
        r
    }

    /// The position of the line of `k`, if there is one.
    fn find(&self, k: &AccountId) -> (r: Option<usize>)
        requires
            self.wf(),
        ensures
            match r {
                Some(i) => i < self.lines@.len() && self.lines@[i as int].borrower@ == k@
                    && self.index_of(k@) == i,
                None => !self.has_key(k@),
            },
    {
        let n = self.lines.len();
        let mut i: usize = 0;
        while i < n
            invariant
                self.wf(),
                n == self.lines@.len(),
                i <= n,
                forall|j: int| 0 <= j < i ==> #[trigger] self.lines@[j].borrower@ != k@,
            decreases n - i,
        {
            if self.lines[i].borrower.same_as(k) {
                proof {
                    assert(self.has_key(k@));
                    self.lemma_index_of(k@);
                    let j = self.index_of(k@);
                    if j != i {
                        assert(self.lines@[j].borrower@ != self.lines@[i as int].borrower@);
                    }
                }
                return Some(i);
            }
            i = i + 1;
        }
        None
    }

    /// The line of `k`, if there is one.
    pub fn get(&self, k: &AccountId) -> (r: Option<&CreditLineData>)
        requires
            self.wf(),
        ensures
            match r {
                Some(l) => self@.contains_key(k@) && l@ == self@[k@],
                None => !self@.contains_key(k@),
            },
    {
        match self.find(k) {
            Some(i) => Some(&self.lines[i]),
            None => None,
        }
    }

    /// Stores `line` as the line of its borrower, replacing any earlier one.
    pub fn put(&mut self, line: CreditLineData)
        requires
            old(self).wf(),
            line_valid(line@),
        ensures
            final(self).wf(),
            final(self)@ == old(self)@.insert(line@.borrower, line@),
    {
        let ghost pre = *self;
        match self.find(&line.borrower) {
            Some(i) => {
                let ghost l = line;
                self.lines.set(i, line);
                proof { LineBook::lemma_store_at(pre, *self, i as int, l); }
            },
            None => {
                let ghost l = line;
                self.lines.push(line);
                proof { LineBook::lemma_store_at(pre, *self, pre.lines@.len() as int, l); }
            },
        }
    }

    /// Storing `l` at position `i` of `pre` (the position of its borrower's
    /// line, or one past the end when the borrower has none) gives `post`,
    /// a well-formed book whose map is `pre`'s with `l` inserted.
    proof fn lemma_store_at(pre: LineBook, post: LineBook, i: int, l: CreditLineData)
        requires
            pre.wf(),
            line_valid(l@),
            0 <= i <= pre.lines@.len(),
            i < pre.lines@.len() ==> pre.lines@[i].borrower@ == l@.borrower,
            i == pre.lines@.len() ==> !pre.has_key(l@.borrower),
            post.lines@.len() == (if i < pre.lines@.len() {
                pre.lines@.len() as int
            } else {
                pre.lines@.len() + 1int
            }),
            post.lines@[i] == l,
            forall|j: int| 0 <= j < pre.lines@.len() && j != i ==> post.lines@[j] == pre.lines@[j],
        ensures
            post.wf(),
            post@ == pre@.insert(l@.borrower, l@),
    {
        let k = l@.borrower;
        let v = l@;
        assert forall|j: int| 0 <= j < post.lines@.len() implies line_valid(
            #[trigger] post.lines@[j]@,
        ) by {
            if j != i {
                assert(post.lines@[j] == pre.lines@[j]);
            }
        }
        assert forall|a: int, b: int|
            0 <= a < post.lines@.len() && 0 <= b < post.lines@.len() && a != b
                implies #[trigger] post.lines@[a].borrower@ != #[trigger] post.lines@[b].borrower@ by {
            if a == i {
                assert(post.lines@[b] == pre.lines@[b]);
                if i < pre.lines@.len() {
                    assert(pre.lines@[i].borrower@ != pre.lines@[b].borrower@);
                } else {
                    assert(pre.lines@[b].borrower@ != k);
                }
            } else if b == i {
                assert(post.lines@[a] == pre.lines@[a]);
                if i < pre.lines@.len() {
                    assert(pre.lines@[i].borrower@ != pre.lines@[a].borrower@);
                } else {
                    assert(pre.lines@[a].borrower@ != k);
                }
            } else {
                assert(post.lines@[a] == pre.lines@[a]);
                assert(post.lines@[b] == pre.lines@[b]);
                assert(pre.lines@[a].borrower@ != pre.lines@[b].borrower@);
            }
        }
        assert forall|key: Seq<u8>| #[trigger] post.has_key(key) == pre@.insert(k, v).contains_key(key) by {
            if post.has_key(key) {
                let j = choose|j: int| 0 <= j < post.lines@.len() && #[trigger] post.lines@[j].borrower@ == key;
                if j != i {
                    assert(post.lines@[j] == pre.lines@[j]);
                    assert(pre.lines@[j].borrower@ == key);
                    assert(pre.has_key(key));
                }
            }
            if pre.has_key(key) && key != k {
                pre.lemma_index_of(key);
                let j = pre.index_of(key);
                if j == i {
                    assert(pre.lines@[i].borrower@ == k);
                }
                assert(post.lines@[j] == pre.lines@[j]);
                assert(post.lines@[j].borrower@ == key);
            }
            if key == k {
                assert(post.lines@[i].borrower@ == key);
            }
        }
        assert forall|key: Seq<u8>| #[trigger] post.has_key(key) implies post.lines@[post.index_of(key)]@
            == pre@.insert(k, v)[key] by {
            post.lemma_index_of(key);
            let j = post.index_of(key);
            if key == k {
                assert(post.lines@[i].borrower@ == key);
                assert(j == i);
            } else {
                assert(j != i);
                assert(post.lines@[j] == pre.lines@[j]);
                assert(pre.lines@[j].borrower@ == key);
                assert(pre.has_key(key));
                pre.lemma_index_of(key);
                let j0 = pre.index_of(key);
                if j0 != j {
                    assert(pre.lines@[j0].borrower@ != pre.lines@[j].borrower@);
                }
            }
        }
        assert(post@ =~= pre@.insert(k, v));
    }
}

impl View for LineBook {
    type V = Map<Seq<u8>, CreditLineView>;

    closed spec fn view(&self) -> Map<Seq<u8>, CreditLineView> {
        Map::new(|k: Seq<u8>| self.has_key(k), |k: Seq<u8>| self.lines@[self.index_of(k)]@)
    }
}

/// Every line is stored under its own borrower and is valid.
pub open spec fn book_valid(m: Map<Seq<u8>, CreditLineView>) -> bool {
    forall|k: Seq<u8>| #[trigger] m.contains_key(k) ==> m[k].borrower == k && line_valid(m[k])
}

} // verus!
