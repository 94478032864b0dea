//! Ordered, duplicate-free lists of conflict keys.
//!
//! Keys and predicates touched by a transaction are kept strictly sorted in the
//! order of their UTF-8 bytes, which is the order of `String`. A strictly sorted
//! list is determined by the set of its keys, so merging lists in any order
//! gives the same result.
use vstd::prelude::*;
use vstd::utf8::*;

verus! {

broadcast use {vstd::utf8::encode_utf8_decode_utf8, vstd::utf8::encode_utf8_valid_utf8};

/// Strict lexicographic order on byte strings: a proper prefix comes first,
/// otherwise the first differing byte decides.
pub open spec fn bytes_lt(x: Seq<u8>, y: Seq<u8>) -> bool
    decreases x.len(),
{
    if y.len() == 0 {
        false
    } else if x.len() == 0 {
        true
    } else if x[0] != y[0] {
        x[0] < y[0]
    } else {
        bytes_lt(x.drop_first(), y.drop_first())
    }
}

/// The order of keys: that of their UTF-8 encodings.
pub open spec fn key_lt(a: Seq<char>, b: Seq<char>) -> bool {
    bytes_lt(encode_utf8(a), encode_utf8(b))
}

/// Every key comes strictly before the keys after it.
pub open spec fn strictly_sorted(s: Seq<Seq<char>>) -> bool {
    forall|i: int, j: int| 0 <= i < j < s.len() ==> key_lt(#[trigger] s[i], #[trigger] s[j])
}

/// The characters of each string of a list.
pub open spec fn key_view(v: Seq<String>) -> Seq<Seq<char>> {
    Seq::new(v.len(), |i: int| v[i]@)
}

/// The strictly sorted list of the keys found in `a` or in `b`.
pub open spec fn sorted_union(a: Seq<Seq<char>>, b: Seq<Seq<char>>) -> Seq<Seq<char>> {
    choose|r: Seq<Seq<char>>| strictly_sorted(r) && r.to_set() == a.to_set() + b.to_set()
}

proof fn lemma_bytes_lt_irreflexive(x: Seq<u8>)
    ensures
        !bytes_lt(x, x),
    decreases x.len(),
{
    if x.len() > 0 {
        lemma_bytes_lt_irreflexive(x.drop_first());
    }
}

proof fn lemma_bytes_lt_transitive(x: Seq<u8>, y: Seq<u8>, z: Seq<u8>)
    requires
        bytes_lt(x, y),
        bytes_lt(y, z),
    ensures
        bytes_lt(x, z),
    decreases x.len(),
{
    if x.len() > 0 && y.len() > 0 && z.len() > 0 && x[0] == y[0] && y[0] == z[0] {
        lemma_bytes_lt_transitive(x.drop_first(), y.drop_first(), z.drop_first());
    }
}

proof fn lemma_bytes_lt_total(x: Seq<u8>, y: Seq<u8>)
    requires
        x != y,
    ensures
        bytes_lt(x, y) || bytes_lt(y, x),
    decreases x.len(),
{
    if x.len() > 0 && y.len() > 0 && x[0] == y[0] {
        if x.drop_first() == y.drop_first() {
            assert(x =~= seq![x[0]] + x.drop_first());
            assert(y =~= seq![y[0]] + y.drop_first());
        }
        lemma_bytes_lt_total(x.drop_first(), y.drop_first());
    } else if x.len() == 0 && y.len() == 0 {
        assert(x =~= y);
    }
}

/// No key comes before itself.
pub proof fn lemma_key_lt_irreflexive(a: Seq<char>)
    ensures
        !key_lt(a, a),
{
    lemma_bytes_lt_irreflexive(encode_utf8(a));
}

/// The order of keys is transitive.
pub proof fn lemma_key_lt_transitive(a: Seq<char>, b: Seq<char>, c: Seq<char>)
    requires
        key_lt(a, b),
        key_lt(b, c),
    ensures
        key_lt(a, c),
{
    lemma_bytes_lt_transitive(encode_utf8(a), encode_utf8(b), encode_utf8(c));
}

/// Of two different keys, one comes before the other.
pub proof fn lemma_key_lt_total(a: Seq<char>, b: Seq<char>)
    requires
        a != b,
    ensures
        key_lt(a, b) || key_lt(b, a),
{
    assert(decode_utf8(encode_utf8(a)) == a);
    assert(decode_utf8(encode_utf8(b)) == b);
    lemma_bytes_lt_total(encode_utf8(a), encode_utf8(b));
}

/// A strictly sorted list holds no key twice.
pub proof fn lemma_strictly_sorted_no_duplicates(s: Seq<Seq<char>>)
    requires
        strictly_sorted(s),
    ensures
        s.no_duplicates(),
{
    assert forall|i: int, j: int| 0 <= i < s.len() && 0 <= j < s.len() && i != j implies s[i]
        != s[j] by {
        if i < j {
            lemma_key_lt_irreflexive(s[i]);
        } else {
            lemma_key_lt_irreflexive(s[j]);
        }
    }
}

/// Two strictly sorted lists with the same keys are equal.
pub proof fn lemma_strictly_sorted_unique(r1: Seq<Seq<char>>, r2: Seq<Seq<char>>)
    requires
        strictly_sorted(r1),
        strictly_sorted(r2),
        r1.to_set() == r2.to_set(),
    ensures
        r1 == r2,
    decreases r1.len(),
{
    if r1.len() == 0 || r2.len() == 0 {
        if r1.len() > 0 {
            assert(r1.to_set().contains(r1[0]));
        }
        if r2.len() > 0 {
            assert(r2.to_set().contains(r2[0]));
        }
        assert(r1 =~= r2);
    } else {
        assert(r1.to_set().contains(r1[0]));
        assert(r2.to_set().contains(r2[0]));
        let j = choose|j: int| 0 <= j < r2.len() && r2[j] == r1[0];
        let i = choose|i: int| 0 <= i < r1.len() && r1[i] == r2[0];
        if j > 0 {
            assert(key_lt(r2[0], r2[j]));
            if i == 0 {
                lemma_key_lt_irreflexive(r1[0]);
            } else {
                assert(key_lt(r1[0], r1[i]));
                lemma_key_lt_transitive(r1[0], r1[i], r1[0]);
                lemma_key_lt_irreflexive(r1[0]);
            }
        }
        assert(r1[0] == r2[0]);
        let t1 = r1.drop_first();
        let t2 = r2.drop_first();
        assert(strictly_sorted(t1)) by {
            assert forall|a: int, b: int| 0 <= a < b < t1.len() implies key_lt(
                #[trigger] t1[a],
                #[trigger] t1[b],
            ) by {
                assert(t1[a] == r1[a + 1] && t1[b] == r1[b + 1]);
            }
        }
        assert(strictly_sorted(t2)) by {
            assert forall|a: int, b: int| 0 <= a < b < t2.len() implies key_lt(
                #[trigger] t2[a],
                #[trigger] t2[b],
            ) by {
                assert(t2[a] == r2[a + 1] && t2[b] == r2[b + 1]);
            }
        }
        assert forall|x: Seq<char>| #[trigger] t1.contains(x) implies t2.contains(x) by {
            let k = choose|k: int| 0 <= k < t1.len() && t1[k] == x;
            assert(r1[k + 1] == x);
            assert(key_lt(r1[0], x));
            lemma_key_lt_irreflexive(x);
            assert(r1.to_set().contains(x));
            assert(r2.contains(x));
            let m = choose|m: int| 0 <= m < r2.len() && r2[m] == x;
            assert(m != 0);
            assert(t2[m - 1] == x);
        }
        assert forall|x: Seq<char>| #[trigger] t2.contains(x) implies t1.contains(x) by {
            let k = choose|k: int| 0 <= k < t2.len() && t2[k] == x;
            assert(r2[k + 1] == x);
            assert(key_lt(r2[0], x));
            lemma_key_lt_irreflexive(x);
            assert(r2.to_set().contains(x));
            assert(r1.contains(x));
            let m = choose|m: int| 0 <= m < r1.len() && r1[m] == x;
            assert(m != 0);
            assert(t1[m - 1] == x);
        }
        assert(t1.to_set() =~= t2.to_set());
        lemma_strictly_sorted_unique(t1, t2);
        assert(r1 =~= seq![r1[0]] + t1);
        assert(r2 =~= seq![r2[0]] + t2);
    }
}

/// A strictly sorted list of the keys of `a` and `b` is their sorted union.
pub proof fn lemma_sorted_union_is(r: Seq<Seq<char>>, a: Seq<Seq<char>>, b: Seq<Seq<char>>)
    requires
        strictly_sorted(r),
        r.to_set() == a.to_set() + b.to_set(),
    ensures
        sorted_union(a, b) == r,
{
    let u = sorted_union(a, b);
    assert(strictly_sorted(u) && u.to_set() == a.to_set() + b.to_set());
    lemma_strictly_sorted_unique(u, r);
}

/// The sorted union does not depend on the order of its arguments, and holds no
/// key twice.
pub proof fn lemma_sorted_union_commutes(
    a: Seq<Seq<char>>,
    b: Seq<Seq<char>>,
    r: Seq<Seq<char>>,
)
    requires
        strictly_sorted(r),
        r.to_set() == a.to_set() + b.to_set(),
    ensures
        sorted_union(a, b) == sorted_union(b, a),
        sorted_union(a, b).to_set() == a.to_set() + b.to_set(),
        sorted_union(a, b).no_duplicates(),
{
    assert(b.to_set() + a.to_set() =~= a.to_set() + b.to_set());
    lemma_sorted_union_is(r, a, b);
    lemma_sorted_union_is(r, b, a);
    lemma_strictly_sorted_no_duplicates(r);
}

/// Compares two keys in the order of their UTF-8 bytes: negative when `a` comes
/// first, zero when they are equal, positive when `b` comes first.
pub fn compare_keys(a: &String, b: &String) -> (r: i8)
    ensures
        r < 0 <==> key_lt(a@, b@),
        r == 0 <==> a@ == b@,
        r > 0 <==> key_lt(b@, a@),
{
    let x = a.as_str().as_bytes();
    let y = b.as_str().as_bytes();
    proof {
        lemma_key_lt_irreflexive(a@);
        lemma_key_lt_irreflexive(b@);
        if key_lt(a@, b@) && key_lt(b@, a@) {
            lemma_key_lt_transitive(a@, b@, a@);
        }
    }
    assert(x@.skip(0) =~= x@);
    assert(y@.skip(0) =~= y@);
    let mut i: usize = 0;
    while i < x.len() && i < y.len() && x[i] == y[i]
        invariant
            x@ == encode_utf8(a@),
            y@ == encode_utf8(b@),
            i <= x@.len(),
            i <= y@.len(),
            x@.subrange(0, i as int) == y@.subrange(0, i as int),
            bytes_lt(x@, y@) == bytes_lt(x@.skip(i as int), y@.skip(i as int)),
            bytes_lt(y@, x@) == bytes_lt(y@.skip(i as int), x@.skip(i as int)),
        decreases x@.len() - i,
    {
        assert(x@.skip(i as int).drop_first() =~= x@.skip(i + 1));
        assert(y@.skip(i as int).drop_first() =~= y@.skip(i + 1));
        assert(x@.subrange(0, i + 1) =~= x@.subrange(0, i as int).push(x@[i as int]));
        assert(y@.subrange(0, i + 1) =~= y@.subrange(0, i as int).push(y@[i as int]));
        i = i + 1;
    }
    if i < x.len() && i < y.len() {
        if x[i] < y[i] {
            -1
        } else {
            1
        }
    } else if i < y.len() {
        -1
    } else if i < x.len() {
        1
    } else {
        proof {
            assert(x@ =~= x@.subrange(0, i as int));
            assert(y@ =~= y@.subrange(0, i as int));
            assert(decode_utf8(encode_utf8(a@)) == a@);
            assert(decode_utf8(encode_utf8(b@)) == b@);
        }
        0
    }
}

/// Inserts `key` into the strictly sorted list `keys` at its place; a key that
/// is there already is not added again.
pub fn insert_key(keys: &mut Vec<String>, key: String)
    requires
        strictly_sorted(key_view(old(keys)@)),
    ensures
        strictly_sorted(key_view(final(keys)@)),
        key_view(final(keys)@).to_set() == key_view(old(keys)@).to_set().insert(key@),
{
    let ghost old_view = key_view(keys@);
    let mut lo: usize = 0;
    let mut hi: usize = keys.len();
    while lo < hi
        invariant
            keys@ == old(keys)@,
            old_view == key_view(keys@),
            strictly_sorted(old_view),
            lo <= hi <= keys.len(),
            forall|k: int| 0 <= k < lo ==> key_lt(#[trigger] old_view[k], key@),
            forall|k: int| hi <= k < keys.len() ==> key_lt(key@, #[trigger] old_view[k]),
        decreases hi - lo,
    {
        let mid = lo + (hi - lo) / 2;
        let c = compare_keys(&keys[mid], &key);
        if c == 0 {
            proof {
                assert(old_view[mid as int] == key@);
                assert(old_view.to_set().insert(key@) =~= old_view.to_set());
            }
            return;
        } else if c < 0 {
            proof {
                assert forall|k: int| 0 <= k <= mid implies key_lt(#[trigger] old_view[k], key@) by {
                    if k < mid {
                        lemma_key_lt_transitive(old_view[k], old_view[mid as int], key@);
                    }
                }
            }
            lo = mid + 1;
        } else {
            proof {
                assert forall|k: int| mid <= k < keys.len() implies key_lt(
                    key@,
                    #[trigger] old_view[k],
                ) by {
                    if k > mid {
                        lemma_key_lt_transitive(key@, old_view[mid as int], old_view[k]);
                    }
                }
            }
            hi = mid;
        }
    }
    let ghost kv = key@;
    keys.insert(lo, key);
    proof {
        let nv = key_view(keys@);
        assert(nv =~= old_view.insert(lo as int, kv));
        assert forall|i: int, j: int| 0 <= i < j < nv.len() implies key_lt(
            #[trigger] nv[i],
            #[trigger] nv[j],
        ) by {
            if j < lo {
            } else if j == lo {
            } else if i < lo {
                lemma_key_lt_transitive(nv[i], kv, nv[j]);
            } else if i == lo {
            } else {
                assert(nv[i] == old_view[i - 1] && nv[j] == old_view[j - 1]);
            }
        }
        assert forall|x: Seq<char>| #[trigger] nv.contains(x) <==> old_view.insert(
            lo as int,
            kv,
        ).contains(x) by {}
        assert(nv.to_set() =~= old_view.to_set().insert(kv)) by {
            assert forall|x: Seq<char>| nv.contains(x) implies #[trigger] old_view.to_set().insert(
                kv,
            ).contains(x) by {
                let k = choose|k: int| 0 <= k < nv.len() && nv[k] == x;
                if k < lo {
                    assert(old_view[k] == x);
                } else if k > lo {
                    assert(old_view[k - 1] == x);
                }
            }
            assert forall|x: Seq<char>| #[trigger] old_view.to_set().insert(kv).contains(x)
                implies nv.contains(x) by {
                if x == kv {
                    assert(nv[lo as int] == x);
                } else {
                    let k = choose|k: int| 0 <= k < old_view.len() && old_view[k] == x;
                    if k < lo {
                        assert(nv[k] == x);
                    } else {
                        assert(nv[k + 1] == x);
                    }
                }
            }
        }
    }
}

/// The strictly sorted list of the keys of `a` and `b`: their sorted union.
pub fn union_keys(a: &Vec<String>, b: &Vec<String>) -> (r: Vec<String>)
    ensures
        strictly_sorted(key_view(r@)),
        key_view(r@).to_set() == key_view(a@).to_set() + key_view(b@).to_set(),
        key_view(r@) == sorted_union(key_view(a@), key_view(b@)),
{
    let mut r: Vec<String> = Vec::new();
    let mut i: usize = 0;
    while i < a.len()
        invariant
            i <= a.len(),
            strictly_sorted(key_view(r@)),
            key_view(r@).to_set() == key_view(a@.subrange(0, i as int)).to_set(),
        decreases a.len() - i,
    {
        let k = a[i].clone();
        insert_key(&mut r, k);
        proof {
            assert(key_view(a@.subrange(0, i + 1)) =~= key_view(a@.subrange(0, i as int)).push(
                a@[i as int]@,
            ));
            key_view(a@.subrange(0, i as int)).lemma_push_to_set_commute(a@[i as int]@);
        }
        i = i + 1;
    }
    assert(a@.subrange(0, a@.len() as int) =~= a@);
    let mut j: usize = 0;
    while j < b.len()
        invariant
            j <= b.len(),
            strictly_sorted(key_view(r@)),
            key_view(r@).to_set() == key_view(a@).to_set() + key_view(b@.subrange(0, j as int)).to_set(),
        decreases b.len() - j,
    {
        let k = b[j].clone();
        insert_key(&mut r, k);
        proof {
            assert(key_view(b@.subrange(0, j + 1)) =~= key_view(b@.subrange(0, j as int)).push(
                b@[j as int]@,
            ));
            key_view(b@.subrange(0, j as int)).lemma_push_to_set_commute(b@[j as int]@);
            assert(key_view(r@).to_set() =~= key_view(a@).to_set() + key_view(
                b@.subrange(0, j + 1),
            ).to_set());
        }
        j = j + 1;
    }
    assert(b@.subrange(0, b@.len() as int) =~= b@);
    proof {
        lemma_sorted_union_is(key_view(r@), key_view(a@), key_view(b@));
    }
    r
}

proof fn lemma_sorted_insert_exists(s: Seq<Seq<char>>, x: Seq<char>) -> (r: Seq<Seq<char>>)
    requires
        strictly_sorted(s),
    ensures
        strictly_sorted(r),
        r.to_set() == s.to_set().insert(x),
    decreases s.len(),
{
    if s.len() == 0 {
        let r = seq![x];
        assert(r.to_set() =~= s.to_set().insert(x)) by {
            assert(r[0] == x);
        }
        r
    } else if s[0] == x {
        assert(s.to_set().contains(x));
        assert(s.to_set() =~= s.to_set().insert(x));
        s
    } else if key_lt(x, s[0]) {
        let r = seq![x] + s;
        assert forall|i: int, j: int| 0 <= i < j < r.len() implies key_lt(
            #[trigger] r[i],
            #[trigger] r[j],
        ) by {
            if i == 0 {
                if j > 1 {
                    lemma_key_lt_transitive(x, s[0], s[j - 1]);
                }
            } else {
                assert(r[i] == s[i - 1] && r[j] == s[j - 1]);
            }
        }
        assert(r.to_set() =~= s.to_set().insert(x)) by {
            assert forall|y: Seq<char>| #[trigger] r.contains(y) implies s.to_set().insert(
                x,
            ).contains(y) by {
                let k = choose|k: int| 0 <= k < r.len() && r[k] == y;
                if k > 0 {
                    assert(s[k - 1] == y);
                }
            }
            assert forall|y: Seq<char>| #[trigger] s.to_set().insert(x).contains(y) implies r.contains(
                y,
            ) by {
                if y == x {
                    assert(r[0] == y);
                } else {
                    let k = choose|k: int| 0 <= k < s.len() && s[k] == y;
                    assert(r[k + 1] == y);
                }
            }
        }
        r
    } else {
        lemma_key_lt_total(x, s[0]);
        let tail = s.drop_first();
        assert(strictly_sorted(tail)) by {
            assert forall|a: int, b: int| 0 <= a < b < tail.len() implies key_lt(
                #[trigger] tail[a],
                #[trigger] tail[b],
            ) by {
                assert(tail[a] == s[a + 1] && tail[b] == s[b + 1]);
            }
        }
        let t = lemma_sorted_insert_exists(tail, x);
        let r = seq![s[0]] + t;
        assert forall|i: int, j: int| 0 <= i < j < r.len() implies key_lt(
            #[trigger] r[i],
            #[trigger] r[j],
        ) by {
            if i == 0 {
                let y = t[j - 1];
                assert(t.contains(y));
                assert(t.to_set().contains(y));
                if y != x {
                    let k = choose|k: int| 0 <= k < tail.len() && tail[k] == y;
                    assert(s[k + 1] == y);
                }
            } else {
                assert(r[i] == t[i - 1] && r[j] == t[j - 1]);
            }
        }
        assert(r.to_set() =~= s.to_set().insert(x)) by {
            assert forall|y: Seq<char>| #[trigger] r.contains(y) implies s.to_set().insert(
                x,
            ).contains(y) by {
                let k = choose|k: int| 0 <= k < r.len() && r[k] == y;
                if k > 0 {
                    assert(t[k - 1] == y);
                    assert(t.to_set().contains(y));
                    if y != x {
                        let m = choose|m: int| 0 <= m < tail.len() && tail[m] == y;
                        assert(s[m + 1] == y);
                    }
                } else {
                    assert(s[0] == y);
                }
            }
            assert forall|y: Seq<char>| #[trigger] s.to_set().insert(x).contains(y) implies r.contains(
                y,
            ) by {
                if y == s[0] {
                    assert(r[0] == y);
                } else {
                    if y != x {
                        let k = choose|k: int| 0 <= k < s.len() && s[k] == y;
                        assert(tail[k - 1] == y);
                        assert(tail.to_set().contains(y));
                    }
                    assert(t.to_set().contains(y));
                    let m = choose|m: int| 0 <= m < t.len() && t[m] == y;
                    assert(r[m + 1] == y);
                }
            }
        }
        r
    }
}

proof fn lemma_sorted_exists(s: Seq<Seq<char>>) -> (r: Seq<Seq<char>>)
    ensures
        strictly_sorted(r),
        r.to_set() == s.to_set(),
    decreases s.len(),
{
    if s.len() == 0 {
        assert(s.to_set() =~= Seq::<Seq<char>>::empty().to_set());
        Seq::empty()
    } else {
        let init = s.drop_last();
        let r0 = lemma_sorted_exists(init);
        let r = lemma_sorted_insert_exists(r0, s.last());
        assert(s =~= init.push(s.last()));
        init.lemma_push_to_set_commute(s.last());
        r
    }
}

/// The sorted union of two lists exists, holds exactly their keys, holds no key
/// twice, and does not depend on the order of the two lists.
pub proof fn lemma_sorted_union(a: Seq<Seq<char>>, b: Seq<Seq<char>>)
    ensures
        strictly_sorted(sorted_union(a, b)),
        sorted_union(a, b).to_set() == a.to_set() + b.to_set(),
        sorted_union(a, b).no_duplicates(),
        sorted_union(a, b) == sorted_union(b, a),
{
    let r = lemma_sorted_exists(a + b);
    assert((a + b).to_set() =~= a.to_set() + b.to_set()) by {
        assert forall|x: Seq<char>| #[trigger] (a + b).contains(x) implies a.contains(x)
            || b.contains(x) by {
            let k = choose|k: int| 0 <= k < (a + b).len() && (a + b)[k] == x;
            if k < a.len() {
                assert(a[k] == x);
            } else {
                assert(b[k - a.len()] == x);
            }
        }
        assert forall|x: Seq<char>| a.contains(x) || b.contains(x) implies #[trigger] (
        a + b).contains(x) by {
            if a.contains(x) {
                let k = choose|k: int| 0 <= k < a.len() && a[k] == x;
                assert((a + b)[k] == x);
            } else {
                let k = choose|k: int| 0 <= k < b.len() && b[k] == x;
                assert((a + b)[k + a.len()] == x);
            }
        }
    }
    lemma_sorted_union_commutes(a, b, r);
}

} // verus!
