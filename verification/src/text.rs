use vstd::prelude::*;

verus! {

/// The characters of a string slice, in order.
pub fn to_chars(s: &str) -> (chars: Vec<char>)
    ensures
        chars@ == s@,
{
    broadcast use vstd::string::group_string_axioms;
    let mut chars: Vec<char> = Vec::new();
    for c in it: s.chars()
        invariant
            chars@ == it.seq().take(it.index() as int),
    {
        chars.push(c);
    }
    chars
}

/// `pattern` occurs in `s` starting at index `i`.
pub open spec fn occurs_at(s: Seq<char>, pattern: Seq<char>, i: int) -> bool {
    &&& 0 <= i
    &&& i + pattern.len() <= s.len()
    &&& s.subrange(i, i + pattern.len()) == pattern
}

/// `i` is the index of the first occurrence of `pattern` in `s`.
pub open spec fn first_occurrence(s: Seq<char>, pattern: Seq<char>, i: int) -> bool {
    &&& occurs_at(s, pattern, i)
    &&& forall|j: int| 0 <= j < i ==> !occurs_at(s, pattern, j)
}

/// The index of the first occurrence of `pattern` in `s`, if it occurs.
pub open spec fn find(s: Seq<char>, pattern: Seq<char>) -> Option<int> {
    if exists|i: int| first_occurrence(s, pattern, i) {
        Some(choose|i: int| first_occurrence(s, pattern, i))
    } else {
        None
    }
}

/// At most one index is the first occurrence of a pattern.
pub proof fn lemma_first_occurrence_unique(s: Seq<char>, pattern: Seq<char>, i: int, j: int)
    requires
        first_occurrence(s, pattern, i),
        first_occurrence(s, pattern, j),
    ensures
        i == j,
{
}

/// What `find` returns is the first occurrence.
pub proof fn lemma_find_is_first(s: Seq<char>, pattern: Seq<char>)
    ensures
        find(s, pattern) matches Some(i) ==> first_occurrence(s, pattern, i),
        find(s, pattern) is None ==> forall|i: int| !occurs_at(s, pattern, i),
{
    if find(s, pattern) is None {
        assert forall|i: int| !occurs_at(s, pattern, i) by {
            if occurs_at(s, pattern, i) {
                lemma_some_first_occurrence(s, pattern, i);
            }
        }
    }
}

/// Where a pattern occurs, it has a first occurrence.
pub proof fn lemma_some_first_occurrence(s: Seq<char>, pattern: Seq<char>, i: int)
    requires
        occurs_at(s, pattern, i),
    ensures
        exists|k: int| first_occurrence(s, pattern, k),
    decreases i,
{
    if exists|j: int| 0 <= j < i && occurs_at(s, pattern, j) {
        let j = choose|j: int| 0 <= j < i && occurs_at(s, pattern, j);
        lemma_some_first_occurrence(s, pattern, j);
    } else {
        assert(first_occurrence(s, pattern, i));
    }
}

/// Whether `s[from..from + t.len()]` equals `t`.
pub fn matches_at(s: &Vec<char>, from: usize, t: &Vec<char>) -> (r: bool)
    requires
        from <= s.len(),
    ensures
        r == occurs_at(s@, t@, from as int),
{
    if t.len() > s.len() - from {
        return false;
    }
    let mut k: usize = 0;
    while k < t.len()
        invariant
            from + t.len() <= s.len(),
            0 <= k <= t.len(),
            forall|m: int| 0 <= m < k ==> s@[from + m] == t@[m],
        decreases t.len() - k,
    {
        if s[from + k] != t[k] {
            assert(s@.subrange(from as int, from + t.len())[k as int] != t@[k as int]);
            return false;
        }
        k = k + 1;
    }
    assert(s@.subrange(from as int, from + t.len()) =~= t@);
    true
}

/// Searches `s` for `pattern`, starting at index `from`. The result is the
/// index of the first occurrence within `s[from..]`, counted from `from`.
pub fn find_from(s: &Vec<char>, from: usize, pattern: &Vec<char>) -> (r: Option<usize>)
    requires
        from <= s.len(),
    ensures
        r matches Some(k) ==> find(s@.skip(from as int), pattern@) == Some(k as int),
        r is None ==> find(s@.skip(from as int), pattern@) is None,
{
    let ghost rest = s@.skip(from as int);
    let limit = s.len() - from;
    let mut k: usize = 0;
    loop
        invariant
            from <= s.len(),
            limit == s.len() - from,
            rest == s@.skip(from as int),
            0 <= k <= limit,
            forall|j: int| 0 <= j < k ==> !occurs_at(rest, pattern@, j),
        decreases limit - k,
    {
        let found = matches_at(s, from + k, pattern);
        proof {
            assert(occurs_at(rest, pattern@, k as int) == occurs_at(s@, pattern@, from + k)) by {
                if k + pattern@.len() <= rest.len() {
                    assert(rest.subrange(k as int, k + pattern@.len()) =~= s@.subrange(
                        from + k,
                        from + k + pattern@.len(),
                    ));
                }
            }
        }
        if found {
            proof {
                assert(first_occurrence(rest, pattern@, k as int));
                let c = choose|i: int| first_occurrence(rest, pattern@, i);
                lemma_first_occurrence_unique(rest, pattern@, c, k as int);
            }
            return Some(k);
        }
        if k == limit {
            proof {
                assert forall|i: int| !first_occurrence(rest, pattern@, i) by {
                    if 0 <= i <= k {
                    } else {
                        assert(!occurs_at(rest, pattern@, i));
                    }
                }
            }
            return None;
        }
        k = k + 1;
    }
}

/// The lines of `s`, split at each `'\n'`; like `str::split('\n')`, the text
/// after the last `'\n'` is a line, even when empty.
pub open spec fn split_lines(s: Seq<char>) -> Seq<Seq<char>>
    decreases s.len(),
{
    if s.len() == 0 {
        seq![seq![]]
    } else {
        let init = split_lines(s.drop_last());
        if s.last() == '\n' {
            init.push(seq![])
        } else {
            init.update(init.len() - 1, init.last().push(s.last()))
        }
    }
}

/// There is always at least one line.
pub proof fn lemma_split_lines_nonempty(s: Seq<char>)
    ensures
        split_lines(s).len() >= 1,
    decreases s.len(),
{
    if s.len() > 0 {
        lemma_split_lines_nonempty(s.drop_last());
    }
}

/// Adding a character either starts a new line (`'\n'`) or extends the last
/// line.
pub proof fn lemma_split_lines_push(s: Seq<char>, c: char)
    ensures
        split_lines(s.push(c)) == if c == '\n' {
            split_lines(s).push(seq![])
        } else {
            split_lines(s).update(split_lines(s).len() - 1, split_lines(s).last().push(c))
        },
{
    assert(s.push(c).drop_last() =~= s);
}

/// Text without a line break is a single line.
pub proof fn lemma_split_lines_single(a: Seq<char>)
    requires
        !a.contains('\n'),
    ensures
        split_lines(a) == seq![a],
    decreases a.len(),
{
    if a.len() > 0 {
        let init = a.drop_last();
        assert(!init.contains('\n')) by {
            if init.contains('\n') {
                let j = choose|j: int| 0 <= j < init.len() && init[j] == '\n';
                assert(a[j] == '\n');
            }
        }
        lemma_split_lines_single(init);
        assert(a[a.len() - 1] != '\n');
        assert(init.push(a.last()) =~= a);
    } else {
        assert(a =~= Seq::<char>::empty());
    }
}

/// A line break separates the lines before it from the lines after it.
pub proof fn lemma_split_lines_concat(a: Seq<char>, b: Seq<char>)
    ensures
        split_lines(a + seq!['\n'] + b) == split_lines(a) + split_lines(b),
    decreases b.len(),
{
    lemma_split_lines_nonempty(a);
    if b.len() == 0 {
        assert(a + seq!['\n'] + b =~= a.push('\n'));
        lemma_split_lines_push(a, '\n');
        assert(split_lines(a).push(seq![]) =~= split_lines(a) + seq![seq![]]);
    } else {
        let init = b.drop_last();
        let c = b.last();
        lemma_split_lines_concat(a, init);
        lemma_split_lines_nonempty(init);
        assert(a + seq!['\n'] + b =~= (a + seq!['\n'] + init).push(c));
        assert(init.push(c) =~= b);
        lemma_split_lines_push(a + seq!['\n'] + init, c);
        lemma_split_lines_push(init, c);
        let x = split_lines(a);
        let y = split_lines(init);
        if c == '\n' {
            assert((x + y).push(seq![]) =~= x + y.push(seq![]));
        } else {
            assert((x + y).update((x + y).len() - 1, (x + y).last().push(c)) =~= x + y.update(
                y.len() - 1,
                y.last().push(c),
            ));
        }
    }
}

} // verus!
