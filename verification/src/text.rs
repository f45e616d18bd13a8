//! Comparing and ordering texts.

use vstd::prelude::*;
use vstd::string::StrSliceExecFns;

verus! {

/// Whether two texts hold the same characters.
pub(crate) fn same_text(a: &str, b: &str) -> (r: bool)
    ensures
        r == (a@ == b@),
{
    let n = a.unicode_len();
    if n != b.unicode_len() {
        return false;
    }
    let mut i: usize = 0;
    while i < n
        invariant
            n == a@.len(),
            n == b@.len(),
            i <= n,
            forall|j: int| 0 <= j < i ==> a@[j] == b@[j],
        decreases n - i,
    {
        if a.get_char(i) != b.get_char(i) {
            return false;
        }
        i += 1;
    }
    assert(a@ =~= b@);
    true
}

/// Whether `a` comes before `b` and this shows at `k`: the two agree on
/// their first `k` characters, and there `a` ends while `b` goes on, or
/// `a` has the character of the lower code.
pub open spec fn spec_less_at(a: Seq<char>, b: Seq<char>, k: int) -> bool {
    &&& 0 <= k <= a.len()
    &&& k < b.len()
    &&& forall|j: int| 0 <= j < k ==> a[j] == b[j]
    &&& (k == a.len() || (a[k] as u32) < (b[k] as u32))
}

/// Whether `a` comes before `b` in the order of the dictionary, character
/// codes deciding.
pub open spec fn spec_text_lt(a: Seq<char>, b: Seq<char>) -> bool {
    exists|k: int| #[trigger] spec_less_at(a, b, k)
}

/// Whether each text of a list comes before those behind it.
pub open spec fn spec_sorted(texts: Seq<Seq<char>>) -> bool {
    forall|i: int, j: int|
        0 <= i < j < texts.len() ==> spec_text_lt(#[trigger] texts[i], #[trigger] texts[j])
}

/// A text that comes before another is not the same and does not come
/// behind it.
pub proof fn lemma_lt_asymmetric(a: Seq<char>, b: Seq<char>)
    requires
        spec_text_lt(a, b),
    ensures
        a != b,
        !spec_text_lt(b, a),
{
    let k = choose|k: int| #[trigger] spec_less_at(a, b, k);
    if spec_text_lt(b, a) {
        let m = choose|m: int| #[trigger] spec_less_at(b, a, m);
        if k < m {
            assert(b[k] == a[k]);
        } else if m < k {
            assert(a[m] == b[m]);
        }
    }
}

/// Coming before carries over: if `a` comes before `b` and `b` before `c`,
/// then `a` comes before `c`.
pub proof fn lemma_lt_transitive(a: Seq<char>, b: Seq<char>, c: Seq<char>)
    requires
        spec_text_lt(a, b),
        spec_text_lt(b, c),
    ensures
        spec_text_lt(a, c),
{
    let k = choose|k: int| #[trigger] spec_less_at(a, b, k);
    let m = choose|m: int| #[trigger] spec_less_at(b, c, m);
    if k < m {
        assert(b[k] == c[k]);
        assert(spec_less_at(a, c, k));
    } else {
        if m < k {
            assert(a[m] == b[m]);
        }
        assert(spec_less_at(a, c, m));
    }
}

/// Two sorted lists that hold the same texts are the same list.
pub proof fn lemma_sorted_unique(s: Seq<Seq<char>>, t: Seq<Seq<char>>)
    requires
        spec_sorted(s),
        spec_sorted(t),
        forall|x: Seq<char>| s.contains(x) <==> t.contains(x),
    ensures
        s == t,
    decreases s.len(),
{
    if s.len() == 0 {
        if t.len() > 0 {
            assert(t.contains(t[0]));
        }
        assert(s =~= t);
    } else {
        assert(s.contains(s[0]));
        assert(t.contains(s[0]));
        let k = choose|k: int| 0 <= k < t.len() && t[k] == s[0];
        assert(t.contains(t[0]));
        assert(s.contains(t[0]));
        let m = choose|m: int| 0 <= m < s.len() && s[m] == t[0];
        if k > 0 {
            assert(spec_text_lt(t[0], t[k]));
            lemma_lt_asymmetric(t[0], t[k]);
            if m > 0 {
                assert(spec_text_lt(s[0], s[m]));
            }
        }
        assert(s[0] == t[0]);
        let s1 = s.subrange(1, s.len() as int);
        let t1 = t.subrange(1, t.len() as int);
        assert forall|i: int, j: int| 0 <= i < j < s1.len() implies spec_text_lt(
            #[trigger] s1[i],
            #[trigger] s1[j],
        ) by {
            assert(spec_text_lt(s[i + 1], s[j + 1]));
        }
        assert forall|i: int, j: int| 0 <= i < j < t1.len() implies spec_text_lt(
            #[trigger] t1[i],
            #[trigger] t1[j],
        ) by {
            assert(spec_text_lt(t[i + 1], t[j + 1]));
        }
        assert forall|x: Seq<char>| s1.contains(x) implies t1.contains(x) by {
            let i = choose|i: int| 0 <= i < s1.len() && s1[i] == x;
            assert(s[i + 1] == x);
            assert(spec_text_lt(s[0], s[i + 1]));
            lemma_lt_asymmetric(s[0], x);
            assert(s.contains(x));
            let j = choose|j: int| 0 <= j < t.len() && t[j] == x;
            assert(j > 0);
            assert(t1[j - 1] == x);
        }
        assert forall|x: Seq<char>| t1.contains(x) implies s1.contains(x) by {
            let i = choose|i: int| 0 <= i < t1.len() && t1[i] == x;
            assert(t[i + 1] == x);
            assert(spec_text_lt(t[0], t[i + 1]));
            lemma_lt_asymmetric(t[0], x);
            assert(t.contains(x));
            let j = choose|j: int| 0 <= j < s.len() && s[j] == x;
            assert(j > 0);
            assert(s1[j - 1] == x);
        }
        lemma_sorted_unique(s1, t1);
        assert(s =~= seq![s[0]] + s1);
        assert(t =~= seq![t[0]] + t1);
    }
}

/// Which of two texts comes first: -1 where it is `a`, 1 where it is `b`,
/// 0 where they are the same.
pub(crate) fn text_order(a: &str, b: &str) -> (r: i8)
    ensures
        r == -1 || r == 0 || r == 1,
        r == -1 ==> spec_text_lt(a@, b@),
        r == 0 ==> a@ == b@,
        r == 1 ==> spec_text_lt(b@, a@),
{
    let n = a.unicode_len();
    let m = b.unicode_len();
    let mut i: usize = 0;
    while i < n && i < m
        invariant
            n == a@.len(),
            m == b@.len(),
            i <= n,
            i <= m,
            forall|j: int| 0 <= j < i ==> a@[j] == b@[j],
        decreases n - i,
    {
        let x = a.get_char(i);
        let y = b.get_char(i);
        if x != y {
            if (x as u32) < (y as u32) {
                assert(spec_less_at(a@, b@, i as int));
                return -1i8;
            } else {
                assert(spec_less_at(b@, a@, i as int));
                return 1i8;
            }
        }
        i += 1;
    }
    if n == m {
        assert(a@ =~= b@);
        0i8
    } else if n < m {
        assert(spec_less_at(a@, b@, n as int));
        -1i8
    } else {
        assert(spec_less_at(b@, a@, m as int));
        1i8
    }
}

} // verus!
