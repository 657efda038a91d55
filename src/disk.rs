//! What the caller found on disk: the paths that exist, and the trimmed
//! contents of the text files it read.

use vstd::prelude::*;

verus! {

/// A snapshot of the filesystem facts that resolution and assembly consult.
pub struct Disk {
    present: Vec<String>,
    texts: Vec<(String, String)>,
}

/// The text recorded for `p` in `texts`; a later record replaces an earlier one.
pub open spec fn text_in(texts: Seq<(String, String)>, p: Seq<char>) -> Option<Seq<char>>
    decreases texts.len(),
{
    if texts.len() == 0 {
        None
    } else if texts.last().0@ == p {
        Some(texts.last().1@)
    } else {
        text_in(texts.drop_last(), p)
    }
}

impl Disk {
    /// `p` exists on disk.
    pub closed spec fn has(&self, p: Seq<char>) -> bool {
        exists|i: int| 0 <= i < self.present@.len() && #[trigger] self.present@[i]@ == p
    }

    /// The trimmed contents of the file at `p`, if it could be read.
    pub closed spec fn text(&self, p: Seq<char>) -> Option<Seq<char>> {
        text_in(self.texts@, p)
    }

    /// A snapshot in which nothing exists.
    pub fn new() -> (r: Disk)
        ensures
            forall|p: Seq<char>| !r.has(p),
            forall|p: Seq<char>| r.text(p) is None,
    {
        Disk { present: Vec::new(), texts: Vec::new() }
    }

    /// Records that `p` exists.
    pub fn add_path(&mut self, p: String)
        ensures
            forall|q: Seq<char>| final(self).has(q) == (old(self).has(q) || q == p@),
            forall|q: Seq<char>| final(self).text(q) == old(self).text(q),
    {
        let ghost pv = p@;
        self.present.push(p);
        assert forall|q: Seq<char>| self.has(q) == (old(self).has(q) || q == pv) by {
            if old(self).has(q) {
                let i = choose|i: int| 0 <= i < old(self).present@.len() && #[trigger] old(self).present@[i]@ == q;
                assert(self.present@[i]@ == q);
            }
            if q == pv {
                assert(self.present@[self.present@.len() - 1]@ == q);
            }
        }
    }

    /// Records that the file at `p` exists and holds `t` once trimmed.
    pub fn add_text(&mut self, p: String, t: String)
        ensures
            forall|q: Seq<char>| final(self).has(q) == (old(self).has(q) || q == p@),
            forall|q: Seq<char>| final(self).text(q) == if q == p@ { Some(t@) } else { old(self).text(q) },
    {
        let ghost pv = p@;
        let ghost tv = t@;
        let p2 = p.clone();
        self.add_path(p2);
        let ghost mid = self.texts@;
        let ghost before = *self;
        self.texts.push((p, t));
        assert(self.present@ == before.present@);
        assert forall|q: Seq<char>| self.has(q) == (old(self).has(q) || q == pv) by {
            assert(self.has(q) == before.has(q));
        }
        assert(self.texts@.drop_last() =~= mid);
        assert forall|q: Seq<char>| self.text(q) == if q == pv { Some(tv) } else { old(self).text(q) } by {
            assert(self.texts@.last().0@ == pv);
        }
    }

    /// Does `p` exist?
    pub fn contains(&self, p: &String) -> (r: bool)
        ensures
            r == self.has(p@),
    {
        let mut i: usize = 0;
        while i < self.present.len()
            invariant
                i <= self.present@.len(),
                forall|j: int| 0 <= j < i ==> #[trigger] self.present@[j]@ != p@,
            decreases self.present@.len() - i,
        {
            if self.present[i] == *p {
                return true;
            }
            i = i + 1;
        }
        false
    }

    /// The recorded text of the file at `p`.
    pub fn read(&self, p: &String) -> (r: Option<String>)
        ensures
            match r {
                Some(t) => self.text(p@) == Some(t@),
                None => self.text(p@) is None,
            },
    {
        let mut i: usize = self.texts.len();
        assert(self.texts@.subrange(0, i as int) =~= self.texts@);
        while i > 0
            invariant
                i <= self.texts@.len(),
                text_in(self.texts@, p@) == text_in(self.texts@.subrange(0, i as int), p@),
            decreases i,
        {
            let ghost s = self.texts@.subrange(0, i as int);
            assert(s.drop_last() =~= self.texts@.subrange(0, i - 1));
            if self.texts[i - 1].0 == *p {
                return Some(self.texts[i - 1].1.clone());
            }
            i = i - 1;
        }
        None
    }
}

} // verus!
