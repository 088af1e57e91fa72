use vstd::prelude::*;

verus! {

/// Unicode `White_Space`, the set that `char::is_whitespace` and `str::trim` use.
pub open spec fn is_space(c: char) -> bool {
    ||| c == '\t'
    ||| c == '\n'
    ||| c == '\u{0B}'
    ||| c == '\u{0C}'
    ||| c == '\r'
    ||| c == ' '
    ||| c == '\u{85}'
    ||| c == '\u{A0}'
    ||| c == '\u{1680}'
    ||| ('\u{2000}' <= c && c <= '\u{200A}')
    ||| c == '\u{2028}'
    ||| c == '\u{2029}'
    ||| c == '\u{202F}'
    ||| c == '\u{205F}'
    ||| c == '\u{3000}'
}

/// The characters that a trim removes: whitespace, or one given character.
#[derive(Clone, Copy, Debug, PartialEq, Eq)]
pub enum Strip {
    Space,
    Only(char),
}

impl Strip {
    pub open spec fn holds(self, c: char) -> bool {
        match self {
            Strip::Space => is_space(c),
            Strip::Only(d) => c == d,
        }
    }

    pub fn test(&self, c: char) -> (r: bool)
        ensures
            r == self.holds(c),
    {
        match self {
            Strip::Space => {
                c == '\t' || c == '\n' || c == '\u{0B}' || c == '\u{0C}' || c == '\r' || c == ' '
                    || c == '\u{85}' || c == '\u{A0}' || c == '\u{1680}' || ('\u{2000}' <= c && c
                    <= '\u{200A}') || c == '\u{2028}' || c == '\u{2029}' || c == '\u{202F}' || c
                    == '\u{205F}' || c == '\u{3000}'
            },
            Strip::Only(d) => c == *d,
        }
    }
}

/// How many characters at the front of `s` the trim removes.
pub open spec fn leading(s: Seq<char>, k: Strip) -> nat
    decreases s.len(),
{
    if s.len() > 0 && k.holds(s[0]) {
        1 + leading(s.drop_first(), k)
    } else {
        0
    }
}

/// How many characters at the back of `s` the trim removes.
pub open spec fn trailing(s: Seq<char>, k: Strip) -> nat
    decreases s.len(),
{
    if s.len() > 0 && k.holds(s.last()) {
        1 + trailing(s.drop_last(), k)
    } else {
        0
    }
}

/// `s` with every leading character of the kind removed (`str::trim_start`,
/// `str::trim_start_matches`).
pub open spec fn trim_start(s: Seq<char>, k: Strip) -> Seq<char> {
    s.skip(leading(s, k) as int)
}

/// `s` with every trailing character of the kind removed.
pub open spec fn trim_end(s: Seq<char>, k: Strip) -> Seq<char> {
    s.take(s.len() - trailing(s, k))
}

/// `s` with the kind removed at both ends (`str::trim`, `str::trim_matches`).
pub open spec fn trim(s: Seq<char>, k: Strip) -> Seq<char> {
    trim_end(trim_start(s, k), k)
}

/// A sequence whose two ends are not of the kind is left as it is by the trim.
pub proof fn lemma_trim_keeps(x: Seq<char>, k: Strip)
    requires
        x.len() > 0,
        !k.holds(x[0]),
        !k.holds(x.last()),
    ensures
        trim(x, k) == x,
{
    assert(leading(x, k) == 0);
    assert(x.skip(0) =~= x);
    assert(trailing(x, k) == 0);
    assert(x.take(x.len() as int) =~= x);
}

/// One character of the kind at each end, around a middle whose ends are not
/// of the kind: the trim removes exactly those two.
pub proof fn lemma_trim_one_each_side(a: char, m: Seq<char>, b: char, k: Strip)
    requires
        k.holds(a),
        k.holds(b),
        m.len() > 0,
        !k.holds(m[0]),
        !k.holds(m.last()),
    ensures
        trim(seq![a] + m + seq![b], k) == m,
{
    let x = seq![a] + m + seq![b];
    assert(x.drop_first() =~= m + seq![b]);
    assert(leading(m + seq![b], k) == 0);
    assert(leading(x, k) == 1);
    let y = x.skip(1);
    assert(y =~= m + seq![b]);
    assert(y.drop_last() =~= m);
    assert(trailing(m, k) == 0);
    assert(trailing(y, k) == 1);
    assert(y.take(y.len() - 1) =~= m);
}

/// One character of the kind at the front of a sequence whose first character
/// is not of the kind: the trim of the front removes exactly it.
pub proof fn lemma_trim_start_one(a: char, m: Seq<char>, k: Strip)
    requires
        k.holds(a),
        m.len() > 0,
        !k.holds(m[0]),
    ensures
        trim_start(seq![a] + m, k) == m,
{
    let x = seq![a] + m;
    assert(x.drop_first() =~= m);
    assert(leading(m, k) == 0);
    assert(leading(x, k) == 1);
    assert(x.skip(1) =~= m);
}

/// The trim of the front removes a whole run of the kind and stops at the first
/// character that is not of it.
pub proof fn lemma_leading_run(w: Seq<char>, x: Seq<char>, k: Strip)
    requires
        forall|i: int| 0 <= i < w.len() ==> k.holds(#[trigger] w[i]),
        x.len() > 0,
        !k.holds(x[0]),
    ensures
        leading(w + x, k) == w.len(),
        trim_start(w + x, k) == x,
    decreases w.len(),
{
    if w.len() == 0 {
        assert(w + x =~= x);
        assert(leading(x, k) == 0);
        assert(x.skip(0) =~= x);
    } else {
        assert((w + x).drop_first() =~= w.drop_first() + x);
        assert(k.holds(w[0]));
        lemma_leading_run(w.drop_first(), x, k);
        assert((w + x).skip(w.len() as int) =~= x);
    }
}

/// The trim of the back removes a whole run of the kind and stops at the last
/// character that is not of it.
pub proof fn lemma_trailing_run(x: Seq<char>, w: Seq<char>, k: Strip)
    requires
        forall|i: int| 0 <= i < w.len() ==> k.holds(#[trigger] w[i]),
        x.len() > 0,
        !k.holds(x.last()),
    ensures
        trailing(x + w, k) == w.len(),
        trim_end(x + w, k) == x,
    decreases w.len(),
{
    if w.len() == 0 {
        assert(x + w =~= x);
        assert(trailing(x, k) == 0);
        assert(x.take(x.len() as int) =~= x);
    } else {
        assert((x + w).drop_last() =~= x + w.drop_last());
        assert(k.holds(w.last()));
        lemma_trailing_run(x, w.drop_last(), k);
        assert((x + w).take(x.len() as int) =~= x);
    }
}

/// Runs of the kind on both sides of a middle whose ends are not of it: the
/// trim gives back the middle.
pub proof fn lemma_trim_runs(a: Seq<char>, m: Seq<char>, b: Seq<char>, k: Strip)
    requires
        forall|i: int| 0 <= i < a.len() ==> k.holds(#[trigger] a[i]),
        forall|i: int| 0 <= i < b.len() ==> k.holds(#[trigger] b[i]),
        m.len() > 0,
        !k.holds(m[0]),
        !k.holds(m.last()),
    ensures
        trim(a + m + b, k) == m,
{
    assert(a + m + b =~= a + (m + b));
    lemma_leading_run(a, m + b, k);
    lemma_trailing_run(m, b, k);
}

/// The start of what remains of `chars[lo..hi]` once its leading characters of
/// kind `k` are removed.
pub fn skip_leading(chars: &Vec<char>, lo: usize, hi: usize, k: Strip) -> (r: usize)
    requires
        lo <= hi <= chars@.len(),
    ensures
        lo <= r <= hi,
        chars@.subrange(r as int, hi as int) == trim_start(chars@.subrange(lo as int, hi as int), k),
{
    let mut i = lo;
    while i < hi && k.test(chars[i])
        invariant
            lo <= i <= hi <= chars@.len(),
            leading(chars@.subrange(lo as int, hi as int), k) == (i - lo) + leading(
                chars@.subrange(i as int, hi as int),
                k,
            ),
        decreases hi - i,
    {
        assert(chars@.subrange(i as int, hi as int).drop_first() =~= chars@.subrange(
            i + 1,
            hi as int,
        ));
        i = i + 1;
    }
    proof {
        let whole = chars@.subrange(lo as int, hi as int);
        assert(leading(chars@.subrange(i as int, hi as int), k) == 0);
        assert(whole.skip(i - lo) =~= chars@.subrange(i as int, hi as int));
    }
    i
}

/// The end of what remains of `chars[lo..hi]` once its trailing characters of
/// kind `k` are removed.
pub fn skip_trailing(chars: &Vec<char>, lo: usize, hi: usize, k: Strip) -> (r: usize)
    requires
        lo <= hi <= chars@.len(),
    ensures
        lo <= r <= hi,
        chars@.subrange(lo as int, r as int) == trim_end(chars@.subrange(lo as int, hi as int), k),
{
    let mut j = hi;
    while j > lo && k.test(chars[j - 1])
        invariant
            lo <= j <= hi <= chars@.len(),
            trailing(chars@.subrange(lo as int, hi as int), k) == (hi - j) + trailing(
                chars@.subrange(lo as int, j as int),
                k,
            ),
        decreases j - lo,
    {
        assert(chars@.subrange(lo as int, j as int).drop_last() =~= chars@.subrange(
            lo as int,
            j - 1,
        ));
        j = j - 1;
    }
    proof {
        let whole = chars@.subrange(lo as int, hi as int);
        assert(trailing(chars@.subrange(lo as int, j as int), k) == 0);
        assert(whole.take(j - lo) =~= chars@.subrange(lo as int, j as int));
    }
    j
}

/// The range of `chars[lo..hi]` that a trim of kind `k` at both ends keeps.
pub fn trim_range(chars: &Vec<char>, lo: usize, hi: usize, k: Strip) -> (r: (usize, usize))
    requires
        lo <= hi <= chars@.len(),
    ensures
        lo <= r.0 <= r.1 <= hi,
        chars@.subrange(r.0 as int, r.1 as int) == trim(chars@.subrange(lo as int, hi as int), k),
{
    let a = skip_leading(chars, lo, hi, k);
    let b = skip_trailing(chars, a, hi, k);
    (a, b)
}

/// The characters of `s`, in order.
pub fn chars_of(s: &str) -> (r: Vec<char>)
    ensures
        r@ == s@,
{
    let mut v: Vec<char> = Vec::new();
    for c in it: s.chars()
        invariant
            v@ == it.seq().take(it.index() as int),
    {
        v.push(c);
    }
    v
}

/// Whether `s` begins with `p`.
pub open spec fn starts_with(s: Seq<char>, p: Seq<char>) -> bool {
    p.len() <= s.len() && s.take(p.len() as int) == p
}

/// Whether `p` occurs in `s` (`str::contains`).
pub open spec fn contains(s: Seq<char>, p: Seq<char>) -> bool {
    exists|i: int| 0 <= i && i + p.len() <= s.len() && #[trigger] s.subrange(i, i + p.len()) == p
}

pub proof fn lemma_contains_at(s: Seq<char>, p: Seq<char>, i: int)
    requires
        0 <= i,
        i + p.len() <= s.len(),
        s.subrange(i, i + p.len()) == p,
    ensures
        contains(s, p),
{
}

pub proof fn lemma_contains_itself(p: Seq<char>)
    ensures
        contains(p, p),
{
    assert(p.subrange(0, p.len() as int) =~= p);
    lemma_contains_at(p, p, 0);
}

pub proof fn lemma_starts_with_contains(s: Seq<char>, p: Seq<char>)
    requires
        starts_with(s, p),
    ensures
        contains(s, p),
{
    assert(s.subrange(0, p.len() as int) =~= s.take(p.len() as int));
    lemma_contains_at(s, p, 0);
}

pub broadcast proof fn lemma_contains_extend_right(x: Seq<char>, y: Seq<char>, p: Seq<char>)
    requires
        contains(x, p),
    ensures
        #[trigger] contains(x + y, p),
{
    let i = choose|i: int| 0 <= i && i + p.len() <= x.len() && #[trigger] x.subrange(i, i + p.len()) == p;
    assert((x + y).subrange(i, i + p.len()) =~= x.subrange(i, i + p.len()));
}

pub broadcast proof fn lemma_contains_extend_left(x: Seq<char>, y: Seq<char>, p: Seq<char>)
    requires
        contains(y, p),
    ensures
        #[trigger] contains(x + y, p),
{
    let i = choose|i: int| 0 <= i && i + p.len() <= y.len() && #[trigger] y.subrange(i, i + p.len()) == p;
    assert((x + y).subrange(x.len() + i, x.len() + i + p.len()) =~= y.subrange(i, i + p.len()));
    lemma_contains_at(x + y, p, x.len() + i);
}

pub broadcast proof fn lemma_starts_with_extend(x: Seq<char>, y: Seq<char>, p: Seq<char>)
    requires
        starts_with(x, p),
    ensures
        #[trigger] starts_with(x + y, p),
{
    assert((x + y).take(p.len() as int) =~= x.take(p.len() as int));
}


/// Whether `s` ends with `p`.
pub open spec fn ends_with(s: Seq<char>, p: Seq<char>) -> bool {
    p.len() <= s.len() && s.skip(s.len() - p.len()) == p
}

pub proof fn lemma_ends_with_append(x: Seq<char>, y: Seq<char>)
    ensures
        ends_with(x + y, y),
{
    assert((x + y).skip(x.len() as int) =~= y);
}

/// Whether `p` occurs in `s` and `q` occurs in `s` after that occurrence of `p`.
pub open spec fn occurs_before(s: Seq<char>, p: Seq<char>, q: Seq<char>) -> bool {
    exists|i: int, j: int|
        0 <= i && i + p.len() <= j && j + q.len() <= s.len() && #[trigger] s.subrange(
            i,
            i + p.len(),
        ) == p && #[trigger] s.subrange(j, j + q.len()) == q
}

pub proof fn lemma_occurs_before_join(x: Seq<char>, y: Seq<char>, p: Seq<char>, q: Seq<char>)
    requires
        contains(x, p),
        contains(y, q),
    ensures
        occurs_before(x + y, p, q),
{
    let i = choose|i: int| 0 <= i && i + p.len() <= x.len() && #[trigger] x.subrange(i, i + p.len()) == p;
    let j = choose|j: int| 0 <= j && j + q.len() <= y.len() && #[trigger] y.subrange(j, j + q.len()) == q;
    assert((x + y).subrange(i, i + p.len()) =~= x.subrange(i, i + p.len()));
    assert((x + y).subrange(x.len() + j, x.len() + j + q.len()) =~= y.subrange(j, j + q.len()));
}

pub broadcast proof fn lemma_occurs_before_extend_right(
    x: Seq<char>,
    y: Seq<char>,
    p: Seq<char>,
    q: Seq<char>,
)
    requires
        occurs_before(x, p, q),
    ensures
        #[trigger] occurs_before(x + y, p, q),
{
    let (i, j) = choose|i: int, j: int|
        0 <= i && i + p.len() <= j && j + q.len() <= x.len() && #[trigger] x.subrange(
            i,
            i + p.len(),
        ) == p && #[trigger] x.subrange(j, j + q.len()) == q;
    assert((x + y).subrange(i, i + p.len()) =~= x.subrange(i, i + p.len()));
    assert((x + y).subrange(j, j + q.len()) =~= x.subrange(j, j + q.len()));
}

/// Whether the parts occur in `s` one after another, in order and without
/// overlapping.
pub open spec fn in_order(s: Seq<char>, parts: Seq<Seq<char>>) -> bool
    decreases parts.len(),
{
    if parts.len() == 0 {
        true
    } else {
        exists|i: int|
            0 <= i && i + parts[0].len() <= s.len() && #[trigger] s.subrange(i, i + parts[0].len())
                == parts[0] && in_order(s.skip(i + parts[0].len()), parts.drop_first())
    }
}

/// A part, preceded by anything, before a text in which the other parts occur
/// in order.
pub proof fn lemma_in_order_cons(a: Seq<char>, p: Seq<char>, b: Seq<char>, parts: Seq<Seq<char>>)
    requires
        in_order(b, parts),
    ensures
        in_order(a + p + b, seq![p] + parts),
{
    let s = a + p + b;
    let ps = seq![p] + parts;
    assert(ps[0] == p);
    assert(ps.drop_first() =~= parts);
    assert(s.subrange(a.len() as int, (a.len() + p.len()) as int) =~= p);
    assert(s.skip((a.len() + p.len()) as int) =~= b);
}

pub proof fn lemma_in_order_last(a: Seq<char>, p: Seq<char>, b: Seq<char>)
    ensures
        in_order(a + p + b, seq![p]),
{
    assert(in_order(b, Seq::<Seq<char>>::empty()));
    lemma_in_order_cons(a, p, b, Seq::<Seq<char>>::empty());
    assert(seq![p] + Seq::<Seq<char>>::empty() =~= seq![p]);
}

/// The text `gaps[0] + parts[0] + gaps[1] + parts[1] + ...`.
pub open spec fn woven(gaps: Seq<Seq<char>>, parts: Seq<Seq<char>>) -> Seq<char>
    decreases parts.len(),
{
    if parts.len() == 0 || gaps.len() == 0 {
        Seq::empty()
    } else {
        gaps[0] + parts[0] + woven(gaps.drop_first(), parts.drop_first())
    }
}

/// The parts of a woven text occur in it in order, whatever follows.
pub proof fn lemma_woven_in_order(gaps: Seq<Seq<char>>, parts: Seq<Seq<char>>, tail: Seq<char>)
    requires
        gaps.len() == parts.len(),
    ensures
        in_order(woven(gaps, parts) + tail, parts),
    decreases parts.len(),
{
    if parts.len() == 0 {
        assert(parts =~= Seq::<Seq<char>>::empty());
    } else {
        lemma_woven_in_order(gaps.drop_first(), parts.drop_first(), tail);
        let rest = woven(gaps.drop_first(), parts.drop_first()) + tail;
        lemma_in_order_cons(gaps[0], parts[0], rest, parts.drop_first());
        assert(woven(gaps, parts) + tail =~= gaps[0] + parts[0] + rest);
        assert(seq![parts[0]] + parts.drop_first() =~= parts);
    }
}

pub broadcast group group_occurrence {
    lemma_occurs_before_extend_right,
    lemma_contains_extend_right,
    lemma_contains_extend_left,
    lemma_starts_with_extend,
}

} // verus!
