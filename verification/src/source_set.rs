use vstd::prelude::*;
use crate::strutil::{list_has, split_char, str_eq, trim_blank, trim_spec, split_str};

verus! {

/// No entry occurs twice.
pub open spec fn distinct(s: Seq<Seq<char>>) -> bool {
    forall|i: int, j: int| 0 <= i < j < s.len() ==> s[i] != s[j]
}

/// `s` without every occurrence of `x`, order otherwise kept.
pub open spec fn drop_entry(s: Seq<Seq<char>>, x: Seq<char>) -> Seq<Seq<char>>
    decreases s.len(),
{
    if s.len() == 0 {
        Seq::empty()
    } else {
        let rest = drop_entry(s.drop_last(), x);
        if s.last() == x {
            rest
        } else {
            rest.push(s.last())
        }
    }
}

/// `s` with `x` appended, unless `x` is already present.
pub open spec fn set_insert(s: Seq<Seq<char>>, x: Seq<char>) -> Seq<Seq<char>> {
    if s.contains(x) {
        s
    } else {
        s.push(x)
    }
}

/// How often `x` occurs in `s`.
pub open spec fn count_of(s: Seq<Seq<char>>, x: Seq<char>) -> nat
    decreases s.len(),
{
    if s.len() == 0 {
        0
    } else {
        count_of(s.drop_last(), x) + (if s.last() == x {
            1nat
        } else {
            0nat
        })
    }
}

pub proof fn lemma_drop_entry_contains(s: Seq<Seq<char>>, x: Seq<char>, y: Seq<char>)
    ensures
        drop_entry(s, x).contains(y) <==> (s.contains(y) && y != x),
    decreases s.len(),
{
    if s.len() > 0 {
        lemma_drop_entry_contains(s.drop_last(), x, y);
        assert(s.contains(y) <==> (s.drop_last().contains(y) || s.last() == y)) by {
            if s.contains(y) {
                let i = choose|i: int| 0 <= i < s.len() && s[i] == y;
                if i < s.len() - 1 {
                    assert(s.drop_last()[i] == y);
                }
            }
            if s.drop_last().contains(y) {
                let i = choose|i: int| 0 <= i < s.drop_last().len() && s.drop_last()[i] == y;
                assert(s[i] == y);
            }
        }
        let rest = drop_entry(s.drop_last(), x);
        if s.last() != x {
            assert(drop_entry(s, x).contains(y) <==> (rest.contains(y) || s.last() == y)) by {
                if drop_entry(s, x).contains(y) {
                    let i = choose|i: int|
                        0 <= i < drop_entry(s, x).len() && drop_entry(s, x)[i] == y;
                    if i < rest.len() {
                        assert(rest[i] == y);
                    }
                }
                if rest.contains(y) {
                    let i = choose|i: int| 0 <= i < rest.len() && rest[i] == y;
                    assert(drop_entry(s, x)[i] == y);
                }
                assert(drop_entry(s, x).last() == s.last());
            }
        }
    }
}

pub proof fn lemma_drop_entry_distinct(s: Seq<Seq<char>>, x: Seq<char>)
    requires
        distinct(s),
    ensures
        distinct(drop_entry(s, x)),
    decreases s.len(),
{
    if s.len() > 0 {
        assert(distinct(s.drop_last()));
        lemma_drop_entry_distinct(s.drop_last(), x);
        if s.last() != x {
            let rest = drop_entry(s.drop_last(), x);
            assert(!rest.contains(s.last())) by {
                lemma_drop_entry_contains(s.drop_last(), x, s.last());
                if s.drop_last().contains(s.last()) {
                    let i = choose|i: int|
                        0 <= i < s.drop_last().len() && s.drop_last()[i] == s.last();
                    assert(s[i] == s[s.len() - 1]);
                }
            }
            assert forall|i: int, j: int|
                0 <= i < j < rest.push(s.last()).len() implies rest.push(s.last())[i] != rest.push(
                s.last(),
            )[j] by {
                if j < rest.len() {
                } else {
                    assert(rest.push(s.last())[i] == rest[i]);
                    assert(rest.contains(rest[i]));
                }
            }
        }
    }
}

pub proof fn lemma_set_insert_distinct(s: Seq<Seq<char>>, x: Seq<char>)
    requires
        distinct(s),
    ensures
        distinct(set_insert(s, x)),
        set_insert(s, x).contains(x),
        forall|y: Seq<char>| s.contains(y) ==> set_insert(s, x).contains(y),
        forall|y: Seq<char>| set_insert(s, x).contains(y) ==> (s.contains(y) || y == x),
{
    if !s.contains(x) {
        assert forall|i: int, j: int|
            0 <= i < j < s.push(x).len() implies s.push(x)[i] != s.push(x)[j] by {
            if j < s.len() {
            } else {
                assert(s.push(x)[i] == s[i]);
                assert(s.contains(s[i]));
            }
        }
        assert(s.push(x)[s.len() as int] == x);
        assert forall|y: Seq<char>| s.contains(y) implies s.push(x).contains(y) by {
            let i = choose|i: int| 0 <= i < s.len() && s[i] == y;
            assert(s.push(x)[i] == y);
        }
        assert forall|y: Seq<char>| s.push(x).contains(y) implies (s.contains(y) || y == x) by {
            let i = choose|i: int| 0 <= i < s.push(x).len() && s.push(x)[i] == y;
            if i < s.len() {
                assert(s[i] == y);
            }
        }
    } else {
        assert(set_insert(s, x) == s);
    }
}

pub proof fn lemma_distinct_count(s: Seq<Seq<char>>, x: Seq<char>)
    ensures
        distinct(s) && s.contains(x) ==> count_of(s, x) == 1,
        !s.contains(x) ==> count_of(s, x) == 0,
    decreases s.len(),
{
    if s.len() > 0 {
        assert(distinct(s) ==> distinct(s.drop_last()));
        lemma_distinct_count(s.drop_last(), x);
        assert(s.contains(x) <==> (s.drop_last().contains(x) || s.last() == x)) by {
            if s.contains(x) {
                let i = choose|i: int| 0 <= i < s.len() && s[i] == x;
                if i < s.len() - 1 {
                    assert(s.drop_last()[i] == x);
                }
            }
            if s.drop_last().contains(x) {
                let i = choose|i: int| 0 <= i < s.drop_last().len() && s.drop_last()[i] == x;
                assert(s[i] == x);
            }
        }
        if distinct(s) && s.contains(x) && s.last() == x {
            assert(!s.drop_last().contains(x)) by {
                if s.drop_last().contains(x) {
                    let i = choose|i: int| 0 <= i < s.drop_last().len() && s.drop_last()[i] == x;
                    assert(s[i] == s[s.len() - 1]);
                }
            }
        }
    }
}

pub proof fn lemma_set_insert_contains(s: Seq<Seq<char>>, x: Seq<char>, y: Seq<char>)
    ensures
        set_insert(s, x).contains(y) <==> (s.contains(y) || y == x),
{
    if !s.contains(x) {
        assert(s.push(x)[s.len() as int] == x);
        if s.contains(y) {
            let i = choose|i: int| 0 <= i < s.len() && s[i] == y;
            assert(s.push(x)[i] == y);
        }
        if s.push(x).contains(y) {
            let i = choose|i: int| 0 <= i < s.push(x).len() && s.push(x)[i] == y;
            if i < s.len() {
                assert(s[i] == y);
            }
        }
    }
}

/// Fold the trimmed pieces into an accumulator, skipping duplicates.
pub open spec fn insert_trimmed(acc: Seq<Seq<char>>, pieces: Seq<Seq<char>>) -> Seq<Seq<char>>
    decreases pieces.len(),
{
    if pieces.len() == 0 {
        acc
    } else {
        insert_trimmed(set_insert(acc, trim_spec(pieces[0])), pieces.drop_first())
    }
}

/// The entries that a manifest text denotes: the whole text trimmed, split
/// into lines, each line trimmed, duplicates dropped.
pub open spec fn manifest_entries(text: Seq<char>) -> Seq<Seq<char>> {
    insert_trimmed(Seq::empty(), split_str(trim_spec(text), '\n'))
}

proof fn lemma_insert_trimmed_distinct(acc: Seq<Seq<char>>, pieces: Seq<Seq<char>>)
    requires
        distinct(acc),
    ensures
        distinct(insert_trimmed(acc, pieces)),
    decreases pieces.len(),
{
    if pieces.len() > 0 {
        lemma_set_insert_distinct(acc, trim_spec(pieces[0]));
        lemma_insert_trimmed_distinct(set_insert(acc, trim_spec(pieces[0])), pieces.drop_first());
    }
}

/// What a manifest denotes is free of duplicates.
pub proof fn lemma_manifest_distinct(text: Seq<char>)
    ensures
        distinct(manifest_entries(text)),
{
    lemma_insert_trimmed_distinct(
        Seq::empty(),
        split_str(trim_spec(text), '\n'),
    );
}

/// The ordered set of translation units compiled into one library artifact.
/// Entries are relative file paths; none occurs twice.
pub struct SourceSet {
    entries: Vec<String>,
}

impl View for SourceSet {
    type V = Seq<Seq<char>>;

    closed spec fn view(&self) -> Seq<Seq<char>> {
        self.entries.deep_view()
    }
}

impl SourceSet {
    pub open spec fn wf(&self) -> bool {
        distinct(self@)
    }

    pub fn new() -> (s: SourceSet)
        ensures
            s@ == Seq::<Seq<char>>::empty(),
            s.wf(),
    {
        let s = SourceSet { entries: Vec::new() };
        proof {
            assert(s@ =~= Seq::<Seq<char>>::empty());
        }
        s
    }

    /// Load a Source Set from the manifest text, one relative path per line.
    pub fn from_manifest(text: &str) -> (s: SourceSet)
        ensures
            s@ == manifest_entries(text@),
            s.wf(),
    {
        let whole = trim_blank(text);
        let pieces = split_char(whole.as_str(), '\n');
        let mut s = SourceSet::new();
        let mut i: usize = 0;
        proof {
            assert(pieces.deep_view().skip(0) =~= pieces.deep_view());
        }
        while i < pieces.len()
            invariant
                i <= pieces.len(),
                s.wf(),
                manifest_entries(text@) == insert_trimmed(s@, pieces.deep_view().skip(i as int)),
                pieces.deep_view() == split_str(trim_spec(text@), '\n'),
            decreases pieces.len() - i,
        {
            let ghost rem = pieces.deep_view().skip(i as int);
            proof {
                assert(rem.len() > 0);
                assert(rem[0] == pieces.deep_view()[i as int]);
                assert(rem.drop_first() =~= pieces.deep_view().skip(i + 1));
            }
            let line = trim_blank(pieces[i].as_str());
            s.insert(line);
            i = i + 1;
        }
        proof {
            assert(pieces.deep_view().skip(pieces.len() as int) =~= Seq::<Seq<char>>::empty());
        }
        s
    }

    pub fn len(&self) -> (n: usize)
        ensures
            n == self@.len(),
    {
        self.entries.len()
    }

    pub fn contains_entry(&self, x: &str) -> (r: bool)
        ensures
            r == self@.contains(x@),
    {
        list_has(&self.entries, x)
    }

    /// Append `x` unless it is already present; the set stays a set.
    pub fn insert(&mut self, x: String)
        requires
            old(self).wf(),
        ensures
            final(self)@ == set_insert(old(self)@, x@),
            final(self).wf(),
    {
        proof {
            lemma_set_insert_distinct(self@, x@);
        }
        if !self.contains_entry(x.as_str()) {
            let ghost before = self@;
            self.entries.push(x);
            proof {
                assert(self@ =~= before.push(x@));
            }
        }
    }

    /// Remove every occurrence of `x`, keeping the order of the rest.
    pub fn remove_entry(&mut self, x: &str)
        requires
            old(self).wf(),
        ensures
            final(self)@ == drop_entry(old(self)@, x@),
            final(self).wf(),
    {
        proof {
            lemma_drop_entry_distinct(self@, x@);
        }
        let ghost whole = self@;
        let mut kept: Vec<String> = Vec::new();
        let mut i: usize = 0;
        proof {
            assert(whole.take(0) =~= Seq::<Seq<char>>::empty());
        }
        while i < self.entries.len()
            invariant
                i <= self.entries.len(),
                self@ == whole,
                kept.deep_view() == drop_entry(whole.take(i as int), x@),
            decreases self.entries.len() - i,
        {
            let ghost prefix = whole.take(i + 1);
            proof {
                assert(prefix.drop_last() =~= whole.take(i as int));
                assert(prefix.last() == whole[i as int]);
            }
            if !str_eq(self.entries[i].as_str(), x) {
                let ghost before = kept.deep_view();
                let entry = self.entries[i].clone();
                kept.push(entry);
                proof {
                    assert(kept.deep_view() =~= before.push(whole[i as int]));
                }
            }
            i = i + 1;
        }
        proof {
            assert(whole.take(whole.len() as int) =~= whole);
        }
        self.entries = kept;
    }

    /// Hand the entries out in order.
    pub fn into_entries(self) -> (v: Vec<String>)
        ensures
            v.deep_view() == self@,
    {
        self.entries
    }
}

} // verus!
