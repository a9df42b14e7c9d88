use vstd::prelude::*;

verus! {

/// Whether `i` is the position of the first element of `s` that satisfies `p`.
pub open spec fn is_first<T>(s: Seq<T>, p: spec_fn(T) -> bool, i: int) -> bool {
    &&& 0 <= i < s.len()
    &&& p(s[i])
    &&& forall|j: int| 0 <= j < i ==> !p(#[trigger] s[j])
}

/// Position of the first element of `s` that satisfies `p`, if there is one.
pub open spec fn first_index<T>(s: Seq<T>, p: spec_fn(T) -> bool) -> Option<int> {
    if exists|i: int| is_first(s, p, i) {
        Some(choose|i: int| is_first(s, p, i))
    } else {
        None
    }
}

/// The first match is unique: whoever finds it has found `first_index`.
pub proof fn lemma_first_index_some<T>(s: Seq<T>, p: spec_fn(T) -> bool, i: int)
    requires
        is_first(s, p, i),
    ensures
        first_index(s, p) == Some(i),
{
    let k = choose|k: int| is_first(s, p, k);
    if k < i {
        assert(!p(s[k]));
    } else if i < k {
        assert(!p(s[i]));
    }
}

/// Where no element satisfies `p`, there is no first one.
pub proof fn lemma_first_index_none<T>(s: Seq<T>, p: spec_fn(T) -> bool)
    requires
        forall|j: int| 0 <= j < s.len() ==> !p(#[trigger] s[j]),
    ensures
        first_index(s, p) is None,
{
}

/// What `first_index` says of its result.
pub proof fn lemma_first_index<T>(s: Seq<T>, p: spec_fn(T) -> bool)
    ensures
        match first_index(s, p) {
            Some(i) => is_first(s, p, i),
            None => forall|j: int| 0 <= j < s.len() ==> !p(#[trigger] s[j]),
        },
{
    if !(exists|i: int| is_first(s, p, i)) {
        assert forall|j: int| 0 <= j < s.len() implies !p(#[trigger] s[j]) by {
            if p(s[j]) {
                lemma_some_first(s, p, j);
            }
        }
    }
}

proof fn lemma_some_first<T>(s: Seq<T>, p: spec_fn(T) -> bool, j: int)
    requires
        0 <= j < s.len(),
        p(s[j]),
    ensures
        exists|i: int| is_first(s, p, i),
    decreases j,
{
    if exists|k: int| 0 <= k < j && p(s[k]) {
        let k = choose|k: int| 0 <= k < j && p(s[k]);
        lemma_some_first(s, p, k);
    } else {
        assert(is_first(s, p, j));
    }
}

/// A copy of `v` of which each item has the view of the item it was made of,
/// given that the items' own copies do.
pub fn clone_items<T: Clone + View>(v: &Vec<T>) -> (r: Vec<T>)
    requires
        forall|x: &T, y: T| #[trigger] call_ensures(T::clone, (x,), y) ==> y@ == x@,
    ensures
        r@.map_values(|t: T| t@) == v@.map_values(|t: T| t@),
{
    let n = v.len();
    let mut out: Vec<T> = Vec::new();
    let mut i: usize = 0;
    while i < n
        invariant
            n == v.len(),
            i <= n,
            out@.len() == i,
            forall|x: &T, y: T| #[trigger] call_ensures(T::clone, (x,), y) ==> y@ == x@,
            forall|j: int| 0 <= j < i ==> (#[trigger] out@[j])@ == v@[j]@,
        decreases n - i,
    {
        let item = v[i].clone();
        out.push(item);
        i += 1;
    }
    assert(out@.map_values(|t: T| t@) =~= v@.map_values(|t: T| t@));
    out
}

/// `f` applied to every element of `s` in order; the first failure is the result.
pub open spec fn try_map<A, B, E>(s: Seq<A>, f: spec_fn(A) -> Result<B, E>) -> Result<Seq<B>, E>
    decreases s.len(),
{
    if s.len() == 0 {
        Ok(Seq::empty())
    } else {
        match try_map(s.drop_last(), f) {
            Err(e) => Err(e),
            Ok(done) => match f(s.last()) {
                Err(e) => Err(e),
                Ok(b) => Ok(done.push(b)),
            },
        }
    }
}

/// One more element: what `try_map` of the longer sequence is.
pub proof fn lemma_try_map_step<A, B, E>(s: Seq<A>, f: spec_fn(A) -> Result<B, E>, i: int)
    requires
        0 <= i < s.len(),
    ensures
        try_map(s.take(i + 1), f) == match try_map(s.take(i), f) {
            Err(e) => Err(e),
            Ok(done) => match f(s[i]) {
                Err(e) => Err(e),
                Ok(b) => Ok(done.push(b)),
            },
        },
{
    assert(s.take(i + 1).drop_last() =~= s.take(i));
}

/// A failure on a prefix is the failure of the whole.
pub proof fn lemma_try_map_prefix_err<A, B, E>(s: Seq<A>, f: spec_fn(A) -> Result<B, E>, k: int)
    requires
        0 <= k <= s.len(),
        try_map(s.take(k), f) is Err,
    ensures
        try_map(s, f) == try_map(s.take(k), f),
    decreases s.len() - k,
{
    if k < s.len() {
        lemma_try_map_step(s, f, k);
        lemma_try_map_prefix_err(s, f, k + 1);
    } else {
        assert(s.take(k) =~= s);
    }
}

/// A success carries the result of every element, in order.
pub proof fn lemma_try_map_ok<A, B, E>(s: Seq<A>, f: spec_fn(A) -> Result<B, E>)
    requires
        try_map(s, f) is Ok,
    ensures
        try_map(s, f)->Ok_0.len() == s.len(),
        forall|i: int| 0 <= i < s.len() ==> f(#[trigger] s[i]) == Ok::<B, E>(try_map(s, f)->Ok_0[i]),
    decreases s.len(),
{
    if s.len() > 0 {
        let t = s.drop_last();
        lemma_try_map_ok(t, f);
        let done = try_map(t, f)->Ok_0;
        let all = try_map(s, f)->Ok_0;
        assert forall|i: int| 0 <= i < s.len() implies f(#[trigger] s[i]) == Ok::<B, E>(all[i]) by {
            if i < t.len() {
                assert(t[i] == s[i]);
                assert(all[i] == done[i]);
            }
        }
    }
}

/// Where `f` takes each element of `s` to the matching element of `expect`,
/// it takes the whole to `expect`.
pub proof fn lemma_try_map_pointwise<A, B, E>(s: Seq<A>, f: spec_fn(A) -> Result<B, E>, expect: Seq<B>)
    requires
        expect.len() == s.len(),
        forall|i: int| 0 <= i < s.len() ==> f(#[trigger] s[i]) == Ok::<B, E>(expect[i]),
    ensures
        try_map(s, f) == Ok::<Seq<B>, E>(expect),
    decreases s.len(),
{
    if s.len() > 0 {
        let t = s.drop_last();
        let e = expect.drop_last();
        assert forall|i: int| 0 <= i < t.len() implies f(#[trigger] t[i]) == Ok::<B, E>(e[i]) by {
            assert(t[i] == s[i]);
        }
        lemma_try_map_pointwise(t, f, e);
        assert(f(s[s.len() - 1]) == Ok::<B, E>(expect[s.len() - 1]));
        assert(e.push(expect.last()) =~= expect);
    } else {
        assert(expect =~= Seq::<B>::empty());
    }
}

} // verus!
