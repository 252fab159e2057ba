use vstd::prelude::*;

verus! {

/// A filesystem path held as its textual components: an optional root,
/// kept as the component `/`, followed by the names that stood between
/// separators. Components are compared exactly: case-sensitive, with no
/// `.`/`..` normalization and no symlink resolution.
#[derive(Debug, PartialEq, Eq, Clone)]
pub struct PurePath {
    pub parts: Vec<String>,
}

/// The character sequences of a sequence of strings.
pub open spec fn views_of(parts: Seq<String>) -> Seq<Seq<char>> {
    Seq::new(parts.len(), |i: int| parts[i]@)
}

impl View for PurePath {
    type V = Seq<Seq<char>>;

    open spec fn view(&self) -> Seq<Seq<char>> {
        views_of(self.parts@)
    }
}

/// One splitting step over the remaining characters: `parts` are the
/// components already finished, `cur` the one being collected.
pub open spec fn scan_components(
    parts: Seq<Seq<char>>,
    cur: Seq<char>,
    rest: Seq<char>,
) -> Seq<Seq<char>>
    decreases rest.len(),
{
    if rest.len() == 0 {
        if cur.len() > 0 {
            parts.push(cur)
        } else {
            parts
        }
    } else if rest[0] == '/' {
        scan_components(
            if cur.len() > 0 {
                parts.push(cur)
            } else {
                parts
            },
            Seq::<char>::empty(),
            rest.drop_first(),
        )
    } else {
        scan_components(parts, cur.push(rest[0]), rest.drop_first())
    }
}

/// The components of a textual path: a leading separator becomes the root
/// component `/`; the rest of the text is split on `/`, dropping the empty
/// pieces left by repeated or trailing separators.
pub open spec fn components_of(s: Seq<char>) -> Seq<Seq<char>> {
    if s.len() > 0 && s[0] == '/' {
        scan_components(seq![seq!['/']], Seq::<char>::empty(), s.drop_first())
    } else {
        scan_components(Seq::<Seq<char>>::empty(), Seq::<char>::empty(), s)
    }
}

/// A normal path component: nonempty and free of separators.
pub open spec fn normal_component(p: Seq<char>) -> bool {
    p.len() > 0 && forall|i: int| 0 <= i < p.len() ==> p[i] != '/'
}

/// A well-formed component sequence: every component is normal, except
/// that the first may be the root component `/`.
pub open spec fn wf_components(parts: Seq<Seq<char>>) -> bool {
    forall|i: int|
        0 <= i < parts.len() ==> (normal_component(#[trigger] parts[i]) || (i == 0 && parts[i]
            == seq!['/']))
}

proof fn lemma_scan_wf(parts: Seq<Seq<char>>, cur: Seq<char>, rest: Seq<char>)
    requires
        wf_components(parts),
        forall|i: int| 0 <= i < cur.len() ==> cur[i] != '/',
    ensures
        wf_components(scan_components(parts, cur, rest)),
    decreases rest.len(),
{
    if rest.len() == 0 {
        if cur.len() > 0 {
            assert(normal_component(cur));
            assert(wf_components(parts.push(cur)));
        }
    } else if rest[0] == '/' {
        if cur.len() > 0 {
            assert(normal_component(cur));
            assert(wf_components(parts.push(cur)));
            lemma_scan_wf(parts.push(cur), Seq::<char>::empty(), rest.drop_first());
        } else {
            lemma_scan_wf(parts, Seq::<char>::empty(), rest.drop_first());
        }
    } else {
        lemma_scan_wf(parts, cur.push(rest[0]), rest.drop_first());
    }
}

/// Law: parsing only ever produces well-formed component sequences.
pub proof fn lemma_components_wf(s: Seq<char>)
    ensures
        wf_components(components_of(s)),
{
    if s.len() > 0 && s[0] == '/' {
        assert(wf_components(seq![seq!['/']]));
        lemma_scan_wf(seq![seq!['/']], Seq::<char>::empty(), s.drop_first());
    } else {
        lemma_scan_wf(Seq::<Seq<char>>::empty(), Seq::<char>::empty(), s);
    }
}

/// Relies on `String::push`: appends the given character to the end of the
/// string.
pub assume_specification[ String::push ](s: &mut String, ch: char)
    ensures
        final(s)@ == old(s)@.push(ch),
;

impl PurePath {
    /// Decomposes a textual path into a `PurePath` whose components are
    /// exactly `components_of` the text.
    pub fn parse(s: &str) -> (r: PurePath)
        ensures
            r@ == components_of(s@),
            wf_components(r@),
    {
        proof {
            lemma_components_wf(s@);
        }
        let n = s.unicode_len();
        let mut parts: Vec<String> = Vec::new();
        let mut cur = String::new();
        let mut i: usize = 0;
        if n > 0 && s.get_char(0) == '/' {
            let mut root = String::new();
            root.push('/');
            proof {
                assert(root@ =~= seq!['/']);
            }
            parts.push(root);
            i = 1;
            proof {
                assert(views_of(parts@) =~= seq![seq!['/']]);
                assert(s@.skip(1) =~= s@.drop_first());
                assert(components_of(s@) == scan_components(
                    seq![seq!['/']],
                    Seq::<char>::empty(),
                    s@.drop_first(),
                ));
            }
        } else {
            proof {
                assert(s@.skip(0) =~= s@);
                assert(views_of(parts@) =~= Seq::<Seq<char>>::empty());
            }
        }
        while i < n
            invariant
                i <= n,
                n == s@.len(),
                scan_components(views_of(parts@), cur@, s@.skip(i as int)) == components_of(s@),
            decreases n - i,
        {
            let ghost rest = s@.skip(i as int);
            proof {
                assert(rest.len() == n - i);
                assert(rest[0] == s@[i as int]);
                assert(rest.drop_first() =~= s@.skip(i as int + 1));
            }
            let c = s.get_char(i);
            if c == '/' {
                if !cur.as_str().is_empty() {
                    let ghost old_parts = parts@;
                    let ghost old_cur = cur@;
                    parts.push(cur);
                    cur = String::new();
                    proof {
                        assert(views_of(parts@) =~= views_of(old_parts).push(old_cur));
                        assert(scan_components(views_of(old_parts), old_cur, rest)
                            == scan_components(
                            views_of(old_parts).push(old_cur),
                            Seq::<char>::empty(),
                            rest.drop_first(),
                        ));
                    }
                } else {
                    proof {
                        assert(cur@ =~= Seq::<char>::empty());
                    }
                }
            } else {
                cur.push(c);
            }
            i = i + 1;
        }
        proof {
            assert(s@.skip(n as int) =~= Seq::<char>::empty());
        }
        if !cur.as_str().is_empty() {
            let ghost old_parts = parts@;
            parts.push(cur);
            proof {
                assert(views_of(parts@) =~= views_of(old_parts).push(cur@));
            }
        }
        PurePath { parts }
    }
}

/// The last `k` components of `a` equal the first `k` components of `b`.
pub open spec fn matches_at(a: Seq<Seq<char>>, b: Seq<Seq<char>>, k: int) -> bool {
    &&& 1 <= k <= a.len()
    &&& k <= b.len()
    &&& forall|i: int| 0 <= i < k ==> a[a.len() - k + i] == b[i]
}

/// The largest overlap length `j` with `1 <= j <= k` at which `a` and `b`
/// match, if any.
pub open spec fn largest_match(a: Seq<Seq<char>>, b: Seq<Seq<char>>, k: int) -> Option<int>
    decreases k,
{
    if k < 1 {
        None
    } else if matches_at(a, b, k) {
        Some(k)
    } else {
        largest_match(a, b, k - 1)
    }
}

/// The shorter of the two component counts.
pub open spec fn min_len(a: Seq<Seq<char>>, b: Seq<Seq<char>>) -> int {
    if a.len() <= b.len() {
        a.len() as int
    } else {
        b.len() as int
    }
}

/// What remains of `b` after dropping its longest prefix that is also a
/// suffix of `a`; none when no overlap length in `[1, min_len]` matches.
pub open spec fn spec_rem(a: Seq<Seq<char>>, b: Seq<Seq<char>>) -> Option<Seq<Seq<char>>> {
    match largest_match(a, b, min_len(a, b)) {
        Some(k) => Some(b.skip(k)),
        None => None,
    }
}

pub proof fn lemma_largest_match_some(a: Seq<Seq<char>>, b: Seq<Seq<char>>, m: int, k: int)
    requires
        1 <= k <= m,
        matches_at(a, b, k),
        forall|j: int| k < j <= m ==> !matches_at(a, b, j),
    ensures
        largest_match(a, b, m) == Some(k),
    decreases m,
{
    if m > k {
        lemma_largest_match_some(a, b, m - 1, k);
    }
}

pub proof fn lemma_largest_match_none(a: Seq<Seq<char>>, b: Seq<Seq<char>>, m: int)
    requires
        forall|j: int| 1 <= j <= m ==> !matches_at(a, b, j),
    ensures
        largest_match(a, b, m) is None,
    decreases m,
{
    if m >= 1 {
        lemma_largest_match_none(a, b, m - 1);
    }
}

/// Extension trait carrying the path-overlap remainder computation.
pub trait PathExt: Sized {
    /// The path as its sequence of textual components.
    spec fn path_view(&self) -> Seq<Seq<char>>;

    /// Finds the largest `k` such that the last `k` components of `self`
    /// equal the first `k` components of `p`, and returns what remains of
    /// `p` after dropping its first `k` components; none when no `k` in
    /// `[1, min(len, len)]` matches.
    fn rem(&self, p: &Self) -> (r: Option<Self>)
        ensures
            r is Some <==> spec_rem(self.path_view(), p.path_view()) is Some,
            (r matches Some(q) ==> q.path_view() == spec_rem(
                self.path_view(),
                p.path_view(),
            ).unwrap()),
    ;
}

/// Whether the last `k` strings of `a` equal the first `k` strings of `b`.
fn slices_match(a: &Vec<String>, b: &Vec<String>, k: usize) -> (r: bool)
    requires
        1 <= k <= a@.len(),
        k <= b@.len(),
    ensures
        r == matches_at(views_of(a@), views_of(b@), k as int),
{
    let alen = a.len();
    let mut i: usize = 0;
    while i < k
        invariant
            i <= k,
            1 <= k <= a@.len(),
            k <= b@.len(),
            alen == a@.len(),
            forall|j: int| 0 <= j < i ==> views_of(a@)[a@.len() - k + j] == views_of(b@)[j],
        decreases k - i,
    {
        if !(a[alen - k + i] == b[i]) {
            proof {
                assert(views_of(a@)[a@.len() - k + i] != views_of(b@)[i as int]);
            }
            return false;
        }
        i = i + 1;
    }
    true
}

/// Copies the strings at indices `from..to` into a fresh vector.
fn copy_range(parts: &Vec<String>, from: usize, to: usize) -> (r: Vec<String>)
    requires
        from <= to <= parts@.len(),
    ensures
        r@.len() == to - from,
        forall|j: int| 0 <= j < r@.len() ==> r@[j] == parts@[from + j],
{
    let mut r: Vec<String> = Vec::new();
    let mut i = from;
    while i < to
        invariant
            from <= i <= to <= parts@.len(),
            r@.len() == i - from,
            forall|j: int| 0 <= j < r@.len() ==> r@[j] == parts@[from + j],
        decreases to - i,
    {
        r.push(parts[i].clone());
        i = i + 1;
    }
    r
}

impl PathExt for PurePath {
    open spec fn path_view(&self) -> Seq<Seq<char>> {
        self@
    }

    fn rem(&self, p: &PurePath) -> (r: Option<PurePath>) {
        let ghost a = self@;
        let ghost b = p@;
        let alen = self.parts.len();
        let blen = p.parts.len();
        let max = if alen < blen {
            alen
        } else {
            blen
        };
        let mut k = max;
        while k >= 1
            invariant
                k <= max,
                a == self@,
                b == p@,
                alen == a.len(),
                blen == b.len(),
                max as int == min_len(a, b),
                forall|j: int| j > k ==> !matches_at(a, b, j),
            decreases k,
        {
            if slices_match(&self.parts, &p.parts, k) {
                proof {
                    lemma_largest_match_some(a, b, min_len(a, b), k as int);
                }
                let rest = copy_range(&p.parts, k, blen);
                proof {
                    assert(views_of(rest@) =~= b.skip(k as int));
                }
                return Some(PurePath { parts: rest });
            }
            k = k - 1;
        }
        proof {
            lemma_largest_match_none(a, b, min_len(a, b));
        }
        None
    }
}

/// The path without its last component; none for the empty path and for
/// the bare root.
pub open spec fn parent_of(parts: Seq<Seq<char>>) -> Option<Seq<Seq<char>>> {
    if parts.len() == 0 || (parts.len() == 1 && parts[0] == seq!['/']) {
        None
    } else {
        Some(parts.drop_last())
    }
}

/// The components interleaved with `/` separators.
pub open spec fn joined(parts: Seq<Seq<char>>) -> Seq<char>
    decreases parts.len(),
{
    if parts.len() == 0 {
        Seq::<char>::empty()
    } else if parts.len() == 1 {
        parts[0]
    } else {
        parts[0] + seq!['/'] + joined(parts.drop_first())
    }
}

/// The textual form of a component sequence: a leading root component
/// prints as `/` with no separator after it; the rest are joined with `/`.
pub open spec fn rendered(parts: Seq<Seq<char>>) -> Seq<char> {
    if parts.len() > 0 && parts[0] == seq!['/'] {
        seq!['/'] + joined(parts.drop_first())
    } else {
        joined(parts)
    }
}

pub proof fn lemma_joined_push(parts: Seq<Seq<char>>, x: Seq<char>)
    ensures
        joined(parts.push(x)) == if parts.len() == 0 {
            x
        } else {
            joined(parts) + seq!['/'] + x
        },
    decreases parts.len(),
{
    if parts.len() == 0 {
        assert(parts.push(x)[0] == x);
        assert(joined(parts.push(x)) == x);
    } else if parts.len() == 1 {
        assert(parts.push(x).drop_first() =~= seq![x]);
        assert(parts.push(x)[0] == parts[0]);
        assert(seq![x].len() == 1 && seq![x][0] == x);
        assert(joined(seq![x]) == x);
        assert(joined(parts.push(x)) == parts[0] + seq!['/'] + x);
        assert(joined(parts) == parts[0]);
    } else {
        assert(parts.push(x).drop_first() =~= parts.drop_first().push(x));
        lemma_joined_push(parts.drop_first(), x);
        assert(parts.push(x)[0] == parts[0]);
        assert(joined(parts.push(x)) == parts[0] + seq!['/'] + joined(parts.drop_first().push(x)));
        assert(joined(parts) == parts[0] + seq!['/'] + joined(parts.drop_first()));
        assert(parts[0] + seq!['/'] + (joined(parts.drop_first()) + seq!['/'] + x) =~= (parts[0]
            + seq!['/'] + joined(parts.drop_first())) + seq!['/'] + x);
    }
}

/// Whether the string is the root component `/`.
fn is_root_component(s: &String) -> (r: bool)
    ensures
        r == (s@ == seq!['/']),
{
    let st = s.as_str();
    if st.unicode_len() == 1 {
        let c = st.get_char(0);
        proof {
            if c == '/' {
                assert(s@ =~= seq!['/']);
            }
        }
        c == '/'
    } else {
        false
    }
}

impl PurePath {
    /// The path without its last component; none for the empty path and
    /// for the bare root.
    pub fn parent(&self) -> (r: Option<PurePath>)
        ensures
            r is Some <==> parent_of(self@) is Some,
            (r matches Some(p) ==> p@ == parent_of(self@).unwrap()),
    {
        let len = self.parts.len();
        if len == 0 {
            return None;
        }
        if len == 1 && is_root_component(&self.parts[0]) {
            proof {
                assert(self@[0] == self.parts@[0]@);
            }
            return None;
        }
        let pre = copy_range(&self.parts, 0, len - 1);
        proof {
            assert(views_of(pre@) =~= self@.drop_last());
        }
        Some(PurePath { parts: pre })
    }

    /// The number of components.
    pub fn len(&self) -> (r: usize)
        ensures
            r == self@.len(),
    {
        self.parts.len()
    }

    /// Renders the path back to text.
    pub fn render(&self) -> (r: String)
        ensures
            r@ == rendered(self@),
    {
        let mut out = String::new();
        let len = self.parts.len();
        let mut i: usize = 0;
        let mut first: usize = 0;
        if len > 0 && is_root_component(&self.parts[0]) {
            proof {
                assert(self@[0] == self.parts@[0]@);
            }
            out.append("/");
            proof {
                reveal_strlit("/");
                assert(out@ =~= seq!['/']);
            }
            i = 1;
            first = 1;
        }
        let ghost head: Seq<char> = if first == 1 {
            seq!['/']
        } else {
            Seq::<char>::empty()
        };
        proof {
            assert(out@ =~= head + joined(self@.subrange(first as int, i as int)));
        }
        while i < len
            invariant
                first <= i <= len,
                first <= 1,
                len == self@.len(),
                first == 1 ==> self@.len() > 0 && self@[0] == seq!['/'],
                first == 0 ==> !(self@.len() > 0 && self@[0] == seq!['/']),
                head == if first == 1 {
                    seq!['/']
                } else {
                    Seq::<char>::empty()
                },
                out@ == head + joined(self@.subrange(first as int, i as int)),
            decreases len - i,
        {
            let ghost done = self@.subrange(first as int, i as int);
            proof {
                assert(self@.subrange(first as int, i as int + 1) =~= done.push(self@[i as int]));
                lemma_joined_push(done, self@[i as int]);
            }
            if i > first {
                out.append("/");
                proof {
                    reveal_strlit("/");
                    assert("/"@ =~= seq!['/']);
                }
            }
            out.append(self.parts[i].as_str());
            proof {
                assert(self.parts@[i as int]@ == self@[i as int]);
                if i > first {
                    assert((head + joined(done)) + seq!['/'] + self@[i as int] =~= head + (joined(
                        done,
                    ) + seq!['/'] + self@[i as int]));
                } else {
                    assert(joined(done) =~= Seq::<char>::empty());
                    assert((head + joined(done)) + self@[i as int] =~= head + self@[i as int]);
                }
            }
            i = i + 1;
        }
        proof {
            if first == 1 {
                assert(self@.subrange(1, len as int) =~= self@.drop_first());
            } else {
                assert(self@.subrange(0, len as int) =~= self@);
                assert(head + joined(self@) =~= joined(self@));
            }
        }
        out
    }
}

/// Law: when `b` is nonempty and its full component sequence is a suffix
/// of `a`'s, the remainder is empty.
pub proof fn lemma_full_suffix_empty_remainder(a: Seq<Seq<char>>, b: Seq<Seq<char>>)
    requires
        1 <= b.len() <= a.len(),
        a.subrange(a.len() - b.len(), a.len() as int) == b,
    ensures
        spec_rem(a, b) == Some(Seq::<Seq<char>>::empty()),
{
    let blen = b.len() as int;
    assert(matches_at(a, b, blen)) by {
        assert forall|i: int| 0 <= i < blen implies a[a.len() - blen + i] == b[i] by {
            assert(a.subrange(a.len() - blen, a.len() as int)[i] == a[a.len() - blen + i]);
        }
    }
    lemma_largest_match_some(a, b, min_len(a, b), blen);
    assert(b.skip(blen) =~= Seq::<Seq<char>>::empty());
}

/// Law: when no overlap length matches at all, there is no remainder.
pub proof fn lemma_no_overlap_no_match(a: Seq<Seq<char>>, b: Seq<Seq<char>>)
    requires
        forall|k: int| !matches_at(a, b, k),
    ensures
        spec_rem(a, b) is None,
{
    lemma_largest_match_none(a, b, min_len(a, b));
}

proof fn lemma_largest_match_characterizes(a: Seq<Seq<char>>, b: Seq<Seq<char>>, m: int, k: int)
    requires
        largest_match(a, b, m) == Some(k),
    ensures
        1 <= k <= m,
        matches_at(a, b, k),
        forall|j: int| k < j <= m ==> !matches_at(a, b, j),
    decreases m,
{
    if m >= 1 && !matches_at(a, b, m) {
        lemma_largest_match_characterizes(a, b, m - 1, k);
    }
}

/// Law: a returned remainder always comes from an overlap length that
/// matches and than which no larger length matches.
pub proof fn lemma_remainder_is_largest_match(a: Seq<Seq<char>>, b: Seq<Seq<char>>)
    requires
        spec_rem(a, b) is Some,
    ensures
        exists|k: int|
            {
                &&& #[trigger] matches_at(a, b, k)
                &&& spec_rem(a, b) == Some(b.skip(k))
                &&& forall|j: int| j > k ==> !matches_at(a, b, j)
            },
{
    let m = min_len(a, b);
    let k = largest_match(a, b, m).unwrap();
    lemma_largest_match_characterizes(a, b, m, k);
    assert(matches_at(a, b, k) && spec_rem(a, b) == Some(b.skip(k)) && (forall|j: int|
        j > k ==> !matches_at(a, b, j)));
}

/// Law: the remainder always comes from the largest matching overlap,
/// never from a smaller one found first.
pub proof fn lemma_prefers_largest_overlap(a: Seq<Seq<char>>, b: Seq<Seq<char>>, k: int)
    requires
        matches_at(a, b, k),
        forall|j: int| j > k ==> !matches_at(a, b, j),
    ensures
        spec_rem(a, b) == Some(b.skip(k)),
{
    lemma_largest_match_some(a, b, min_len(a, b), k);
}

} // verus!
