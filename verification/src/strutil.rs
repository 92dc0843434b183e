use vstd::prelude::*;

verus! {

/// Relies on String::push: appends the given character to the end of the string.
pub assume_specification[ String::push ](s: &mut String, c: char)
    ensures
        final(s)@ == old(s)@.push(c),
;

pub open spec fn matches_at(h: Seq<char>, n: Seq<char>, i: int) -> bool {
    0 <= i && i + n.len() <= h.len() && h.subrange(i, i + n.len()) == n
}

pub open spec fn contains_str(h: Seq<char>, n: Seq<char>) -> bool {
    exists|i: int| matches_at(h, n, i)
}

pub open spec fn starts_with(h: Seq<char>, n: Seq<char>) -> bool {
    n.len() <= h.len() && h.subrange(0, n.len() as int) == n
}

pub fn str_eq(a: &str, b: &str) -> (r: bool)
    ensures
        r == (a@ == b@),
{
    let a_len: usize = a.unicode_len();
    let b_len: usize = b.unicode_len();
    if a_len != b_len {
        return false;
    }
    let mut i: usize = 0;
    while i < a_len
        invariant
            a_len == a@.len(),
            b_len == b@.len(),
            a_len == b_len,
            i <= a_len,
            forall|k: int| 0 <= k < i ==> a@[k] == b@[k],
        decreases a_len - i,
    {
        if a.get_char(i) != b.get_char(i) {
            assert(a@ != b@);
            return false;
        }
        i = i + 1;
    }
    assert(a@ =~= b@);
    true
}

fn match_at(h: &str, n: &str, i: usize) -> (r: bool)
    requires
        i + n@.len() <= h@.len(),
        h@.len() <= usize::MAX,
    ensures
        r == matches_at(h@, n@, i as int),
{
    let n_len: usize = n.unicode_len();
    let mut j: usize = 0;
    while j < n_len
        invariant
            n_len == n@.len(),
            i + n_len <= h@.len(),
            h@.len() <= usize::MAX,
            j <= n_len,
            forall|k: int| 0 <= k < j ==> h@[i + k] == n@[k],
        decreases n_len - j,
    {
        if h.get_char(i + j) != n.get_char(j) {
            assert(!matches_at(h@, n@, i as int)) by {
                assert(h@.subrange(i as int, i + n@.len())[j as int] == h@[i + j]);
            }
            return false;
        }
        j = j + 1;
    }
    assert(h@.subrange(i as int, i + n@.len()) =~= n@);
    true
}

pub fn str_contains(h: &str, n: &str) -> (r: bool)
    ensures
        r == contains_str(h@, n@),
{
    let h_len: usize = h.unicode_len();
    let n_len: usize = n.unicode_len();
    if n_len > h_len {
        assert(forall|i: int| !matches_at(h@, n@, i));
        return false;
    }
    let last: usize = h_len - n_len;
    let mut i: usize = 0;
    loop
        invariant
            h_len == h@.len(),
            n_len == n@.len(),
            n_len <= h_len,
            last == h_len - n_len,
            i <= last,
            forall|k: int| 0 <= k < i ==> !matches_at(h@, n@, k),
        decreases last - i,
    {
        if match_at(h, n, i) {
            return true;
        }
        if i == last {
            assert(forall|k: int| !matches_at(h@, n@, k));
            return false;
        }
        i = i + 1;
    }
}

pub fn str_starts_with(h: &str, n: &str) -> (r: bool)
    ensures
        r == starts_with(h@, n@),
{
    let h_len: usize = h.unicode_len();
    let n_len: usize = n.unicode_len();
    if n_len > h_len {
        return false;
    }
    match_at(h, n, 0)
}

pub fn concat_str(a: &str, b: &str) -> (r: String)
    ensures
        r@ == a@ + b@,
{
    let s = String::from_str(a);
    s.concat(b)
}

pub open spec fn upper_char(c: char) -> char {
    if 'a' <= c && c <= 'z' {
        ((c as u8) - 32) as char
    } else {
        c
    }
}

pub fn to_upper(c: char) -> (r: char)
    ensures
        r == upper_char(c),
{
    if 'a' <= c && c <= 'z' {
        let b: u8 = c as u8;
        (b - 32) as char
    } else {
        c
    }
}

pub fn upper_ascii(s: &str) -> (r: String)
    ensures
        r@ == s@.map_values(|c: char| upper_char(c)),
{
    let len: usize = s.unicode_len();
    let mut r = String::new();
    let mut i: usize = 0;
    while i < len
        invariant
            len == s@.len(),
            i <= len,
            r@ == s@.take(i as int).map_values(|c: char| upper_char(c)),
        decreases len - i,
    {
        let c = s.get_char(i);
        r.push(to_upper(c));
        assert(s@.take(i + 1).map_values(|c: char| upper_char(c)) =~= s@.take(i as int)
            .map_values(|c: char| upper_char(c)).push(upper_char(s@[i as int])));
        i = i + 1;
    }
    assert(s@.take(len as int) =~= s@);
    r
}

pub open spec fn split_str(s: Seq<char>, sep: char) -> Seq<Seq<char>>
    decreases s.len(),
{
    if s.len() == 0 {
        seq![Seq::<char>::empty()]
    } else if s[0] == sep {
        seq![Seq::<char>::empty()] + split_str(s.drop_first(), sep)
    } else {
        let rest = split_str(s.drop_first(), sep);
        seq![seq![s[0]] + rest[0]] + rest.drop_first()
    }
}

pub proof fn lemma_split_nonempty(s: Seq<char>, sep: char)
    ensures
        split_str(s, sep).len() >= 1,
    decreases s.len(),
{
    if s.len() > 0 {
        lemma_split_nonempty(s.drop_first(), sep);
    }
}

pub fn split_char(s: &str, sep: char) -> (r: Vec<String>)
    ensures
        r.deep_view() == split_str(s@, sep),
{
    let len: usize = s.unicode_len();
    let mut done: Vec<String> = Vec::new();
    let mut cur: String = String::new();
    let mut i: usize = 0;
    proof {
        assert(s@.skip(0) =~= s@);
    }
    while i < len
        invariant
            len == s@.len(),
            i <= len,
            split_str(s@, sep).len() >= done.deep_view().len() + 1,
            split_str(s@, sep) == done.deep_view() + seq![
                cur@ + split_str(s@.skip(i as int), sep)[0],
            ] + split_str(s@.skip(i as int), sep).drop_first(),
        decreases len - i,
    {
        let ghost tail = s@.skip(i as int);
        let ghost tail1 = s@.skip(i + 1);
        proof {
            assert(tail.len() > 0);
            assert(tail[0] == s@[i as int]);
            assert(tail.drop_first() =~= tail1);
            lemma_split_nonempty(tail1, sep);
        }
        let c = s.get_char(i);
        if c == sep {
            proof {
                assert(split_str(tail, sep) =~= seq![Seq::<char>::empty()] + split_str(
                    tail1,
                    sep,
                ));
            }
            let ghost old_done = done.deep_view();
            let ghost old_cur = cur@;
            done.push(cur);
            cur = String::new();
            proof {
                assert(done.deep_view() =~= old_done.push(old_cur));
                assert(old_cur + split_str(tail, sep)[0] =~= old_cur);
                assert(cur@ + split_str(tail1, sep)[0] =~= split_str(tail1, sep)[0]);
                assert(split_str(tail, sep).drop_first() =~= split_str(tail1, sep));
                assert(split_str(tail1, sep) =~= seq![
                    cur@ + split_str(tail1, sep)[0],
                ] + split_str(tail1, sep).drop_first());
                assert(split_str(s@, sep) =~= done.deep_view() + seq![
                    cur@ + split_str(tail1, sep)[0],
                ] + split_str(tail1, sep).drop_first());
            }
        } else {
            proof {
                assert(split_str(tail, sep) =~= seq![
                    seq![tail[0]] + split_str(tail1, sep)[0],
                ] + split_str(tail1, sep).drop_first());
            }
            let ghost old_cur = cur@;
            cur.push(c);
            proof {
                assert(cur@ =~= old_cur.push(c));
                assert(cur@ + split_str(tail1, sep)[0] =~= old_cur + split_str(tail, sep)[0]);
                assert(split_str(tail, sep).drop_first() =~= split_str(tail1, sep).drop_first());
                assert(split_str(s@, sep) =~= done.deep_view() + seq![
                    cur@ + split_str(tail1, sep)[0],
                ] + split_str(tail1, sep).drop_first());
            }
        }
        i = i + 1;
    }
    proof {
        assert(s@.skip(len as int) =~= Seq::<char>::empty());
        assert(split_str(Seq::<char>::empty(), sep) =~= seq![Seq::<char>::empty()]);
        assert(cur@ + split_str(s@.skip(len as int), sep)[0] =~= cur@);
        assert(split_str(s@.skip(len as int), sep).drop_first() =~= Seq::<Seq<char>>::empty());
    }
    let ghost old_done = done.deep_view();
    let ghost last_piece = cur@;
    done.push(cur);
    proof {
        assert(done.deep_view() =~= old_done.push(last_piece));
        assert(split_str(s@, sep) =~= done.deep_view());
    }
    done
}

pub open spec fn is_blank(c: char) -> bool {
    c == ' ' || c == '\t' || c == '\r' || c == '\n'
}

pub open spec fn trim_front(s: Seq<char>) -> Seq<char>
    decreases s.len(),
{
    if s.len() > 0 && is_blank(s[0]) {
        trim_front(s.drop_first())
    } else {
        s
    }
}

pub open spec fn trim_back(s: Seq<char>) -> Seq<char>
    decreases s.len(),
{
    if s.len() > 0 && is_blank(s.last()) {
        trim_back(s.drop_last())
    } else {
        s
    }
}

pub open spec fn trim_spec(s: Seq<char>) -> Seq<char> {
    trim_back(trim_front(s))
}

proof fn lemma_trim_front_skip(s: Seq<char>, lo: int)
    requires
        0 <= lo <= s.len(),
        forall|j: int| 0 <= j < lo ==> is_blank(s[j]),
        lo == s.len() || !is_blank(s[lo]),
    ensures
        trim_front(s) =~= s.skip(lo),
    decreases lo,
{
    if lo == 0 {
        assert(s.skip(0) =~= s);
    } else {
        assert(is_blank(s[0]));
        lemma_trim_front_skip(s.drop_first(), lo - 1);
        assert(s.drop_first().skip(lo - 1) =~= s.skip(lo));
    }
}

proof fn lemma_trim_back_take(s: Seq<char>, hi: int)
    requires
        0 <= hi <= s.len(),
        forall|j: int| hi <= j < s.len() ==> is_blank(s[j]),
        hi == 0 || !is_blank(s[hi - 1]),
    ensures
        trim_back(s) =~= s.take(hi),
    decreases s.len() - hi,
{
    if hi == s.len() {
        if s.len() > 0 && is_blank(s.last()) {
            assert(false);
        }
        assert(s.take(hi) =~= s);
    } else {
        assert(is_blank(s.last()));
        lemma_trim_back_take(s.drop_last(), hi);
        assert(s.drop_last().take(hi) =~= s.take(hi));
    }
}

pub fn trim_blank(s: &str) -> (r: String)
    ensures
        r@ == trim_spec(s@),
{
    let len: usize = s.unicode_len();
    let mut lo: usize = 0;
    while lo < len && is_blank_exec(s.get_char(lo))
        invariant
            len == s@.len(),
            lo <= len,
            forall|j: int| 0 <= j < lo ==> is_blank(s@[j]),
        decreases len - lo,
    {
        lo = lo + 1;
    }
    if lo == len {
        proof {
            lemma_trim_front_skip(s@, lo as int);
            assert(s@.skip(len as int) =~= Seq::<char>::empty());
        }
        return String::new();
    }
    let mut hi: usize = len;
    while hi > lo && is_blank_exec(s.get_char(hi - 1))
        invariant
            len == s@.len(),
            lo < len,
            lo <= hi <= len,
            !is_blank(s@[lo as int]),
            forall|j: int| hi <= j < len ==> is_blank(s@[j]),
        decreases hi,
    {
        hi = hi - 1;
    }
    proof {
        lemma_trim_front_skip(s@, lo as int);
        lemma_trim_back_take(s@.skip(lo as int), hi - lo);
        assert(s@.skip(lo as int).take(hi - lo) =~= s@.subrange(lo as int, hi as int));
    }
    let piece = s.substring_char(lo, hi);
    String::from_str(piece)
}

pub fn is_blank_exec(c: char) -> (r: bool)
    ensures
        r == is_blank(c),
{
    c == ' ' || c == '\t' || c == '\r' || c == '\n'
}

pub fn list_has(list: &Vec<String>, x: &str) -> (r: bool)
    ensures
        r == list.deep_view().contains(x@),
{
    let mut i: usize = 0;
    while i < list.len()
        invariant
            i <= list.len(),
            forall|k: int| 0 <= k < i ==> list.deep_view()[k] != x@,
        decreases list.len() - i,
    {
        if str_eq(list[i].as_str(), x) {
            assert(list.deep_view()[i as int] == x@);
            return true;
        }
        i = i + 1;
    }
    assert(forall|k: int| 0 <= k < list.deep_view().len() ==> list.deep_view()[k] != x@);
    false
}

} // verus!
