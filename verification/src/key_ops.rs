//! The set of operations that a key is permitted for.

use vstd::prelude::*;
use vstd::string::StringExecFns;
use crate::json::spec_texts;
use crate::text::{
    lemma_lt_transitive, lemma_sorted_unique, same_text, spec_sorted, spec_text_lt, text_order,
};

verus! {

/// A set of operation tokens such as "sign" and "verify". Tokens outside
/// the well-known ones are kept as they are. Two sets are equal when they
/// hold the same tokens, in whatever order they were added; the tokens are
/// held and written sorted.
#[derive(Debug)]
pub struct KeyOps {
    ops: Vec<String>,
}

/// The well-known operations.
pub const SIGN: &'static str = "sign";

pub const VERIFY: &'static str = "verify";

pub const ENCRYPT: &'static str = "encrypt";

pub const DECRYPT: &'static str = "decrypt";

pub const WRAP_KEY: &'static str = "wrapKey";

pub const UNWRAP_KEY: &'static str = "unwrapKey";

pub const DERIVE_KEY: &'static str = "deriveKey";

pub const DERIVE_BITS: &'static str = "deriveBits";

/// The texts that a list of tokens holds.
pub open spec fn spec_token_set(tokens: Seq<String>) -> Set<Seq<char>> {
    Set::new(|t: Seq<char>| exists|i: int| 0 <= i < tokens.len() && #[trigger] tokens[i]@ == t)
}

/// The tokens of a set as a sorted list, each once.
pub open spec fn spec_sorted_tokens(set: Set<Seq<char>>) -> Seq<Seq<char>> {
    choose|s: Seq<Seq<char>>| spec_lists(s, set)
}

/// Whether a list is sorted and holds exactly the tokens of a set.
pub open spec fn spec_lists(s: Seq<Seq<char>>, set: Set<Seq<char>>) -> bool {
    &&& spec_sorted(s)
    &&& forall|t: Seq<char>| s.contains(t) <==> set.contains(t)
}

/// A set has one sorted list, the one that is written, and the list is
/// empty exactly when the set is.
pub proof fn lemma_sorted_tokens(s: Seq<Seq<char>>, set: Set<Seq<char>>)
    requires
        spec_lists(s, set),
    ensures
        spec_sorted_tokens(set) == s,
        s.len() == 0 <==> set == Set::<Seq<char>>::empty(),
{
    let chosen = spec_sorted_tokens(set);
    assert(spec_lists(chosen, set));
    lemma_sorted_unique(s, chosen);
    if s.len() > 0 {
        assert(s.contains(s[0]));
        assert(set.contains(s[0]));
    } else {
        assert(set =~= Set::<Seq<char>>::empty());
    }
}

impl View for KeyOps {
    type V = Set<Seq<char>>;

    closed spec fn view(&self) -> Set<Seq<char>> {
        spec_token_set(self.ops@)
    }
}

impl KeyOps {
    #[verifier::type_invariant]
    spec fn sorted(self) -> bool {
        spec_sorted(spec_texts(self.ops@))
    }

    /// The set without any operation.
    pub fn empty() -> (r: KeyOps)
        ensures
            r@ == Set::<Seq<char>>::empty(),
    {
        let r = KeyOps { ops: Vec::new() };
        assert(r@ =~= Set::<Seq<char>>::empty());
        r
    }

    /// Whether the set holds no token.
    pub fn is_empty(&self) -> (r: bool)
        ensures
            r == (self@ == Set::<Seq<char>>::empty()),
    {
        let r = self.ops.len() == 0;
        proof {
            if r {
                assert(self@ =~= Set::<Seq<char>>::empty());
            } else {
                assert(self@.contains(self.ops@[0]@));
            }
        }
        r
    }

    /// Whether the set holds the token.
    pub fn contains(&self, op: &str) -> (r: bool)
        ensures
            r == self@.contains(op@),
    {
        let mut i: usize = 0;
        while i < self.ops.len()
            invariant
                i <= self.ops.len(),
                forall|j: int| 0 <= j < i ==> self.ops@[j]@ != op@,
            decreases self.ops.len() - i,
        {
            if same_text(self.ops[i].as_str(), op) {
                return true;
            }
            i += 1;
        }
        false
    }

    /// Whether every token of this set is in the other.
    pub fn is_subset_of(&self, other: &KeyOps) -> (r: bool)
        ensures
            r == self@.subset_of(other@),
    {
        let mut i: usize = 0;
        while i < self.ops.len()
            invariant
                i <= self.ops.len(),
                forall|j: int| 0 <= j < i ==> other@.contains(self.ops@[j]@),
            decreases self.ops.len() - i,
        {
            if !other.contains(self.ops[i].as_str()) {
                assert(self@.contains(self.ops@[i as int]@));
                return false;
            }
            i += 1;
        }
        assert forall|t: Seq<char>| self@.contains(t) implies other@.contains(t) by {
            let j = choose|j: int| 0 <= j < self.ops@.len() && #[trigger] self.ops@[j]@ == t;
        }
        true
    }

    /// Where a token stands or would stand: the number of tokens that come
    /// before it, and whether it is there.
    fn position(&self, op: &str) -> (r: (usize, bool))
        ensures
            r.0 <= self.ops@.len(),
            forall|j: int| 0 <= j < r.0 ==> spec_text_lt(#[trigger] self.ops@[j]@, op@),
            r.1 ==> r.0 < self.ops@.len() && self.ops@[r.0 as int]@ == op@,
            !r.1 ==> r.0 == self.ops@.len() || spec_text_lt(op@, self.ops@[r.0 as int]@),
    {
        let mut p: usize = 0;
        while p < self.ops.len()
            invariant
                p <= self.ops@.len(),
                forall|j: int| 0 <= j < p ==> spec_text_lt(#[trigger] self.ops@[j]@, op@),
            decreases self.ops.len() - p,
        {
            let c = text_order(self.ops[p].as_str(), op);
            if c == 0 {
                return (p, true);
            }
            if c == 1 {
                return (p, false);
            }
            p += 1;
        }
        (p, false)
    }

    /// Adds a token at its place in the order; one that is there already
    /// is not added again.
    pub fn insert(&mut self, op: &str)
        ensures
            final(self)@ == old(self)@.insert(op@),
    {
        let (p, found) = self.position(op);
        if found {
            assert(self@.contains(self.ops@[p as int]@));
            assert(self@ =~= old(self)@.insert(op@));
        } else {
            proof {
                use_type_invariant(&*self);
            }
            let mut ops = self.copy_tokens();
            let ghost before = ops@;
            ops.insert(p, String::from_str(op));
            let ghost after = spec_texts(ops@);
            assert(ops@.len() == before.len() + 1);
            assert(ops@[p as int]@ == op@);
            assert forall|i: int| 0 <= i < p implies (#[trigger] ops@[i]) == before[i] by {}
            assert forall|i: int| p < i < ops@.len() implies (#[trigger] ops@[i]) == before[i - 1] by {}
            assert forall|i: int, j: int| 0 <= i < j < after.len() implies spec_text_lt(
                #[trigger] after[i],
                #[trigger] after[j],
            ) by {
                let ghost old_texts = spec_texts(before);
                if j < p {
                    assert(spec_text_lt(old_texts[i], old_texts[j]));
                } else if j == p {
                    assert(spec_text_lt(self.ops@[i]@, op@));
                } else if i < p {
                    assert(spec_text_lt(old_texts[i], old_texts[j - 1]));
                } else if i == p {
                    assert(spec_text_lt(op@, self.ops@[p as int]@));
                    if j - 1 > p {
                        assert(spec_text_lt(old_texts[p as int], old_texts[j - 1]));
                        lemma_lt_transitive(op@, old_texts[p as int], old_texts[j - 1]);
                    }
                } else {
                    assert(spec_text_lt(old_texts[i - 1], old_texts[j - 1]));
                }
            }
            assert(spec_token_set(ops@) =~= old(self)@.insert(op@)) by {
                assert forall|t: Seq<char>| spec_token_set(ops@).contains(t) <==> old(
                    self,
                )@.insert(op@).contains(t) by {
                    if old(self)@.contains(t) {
                        let i = choose|i: int|
                            0 <= i < self.ops@.len() && #[trigger] self.ops@[i]@ == t;
                        assert(before[i]@ == t);
                        if i < p {
                            assert(ops@[i]@ == t);
                        } else {
                            assert(ops@[i + 1]@ == t);
                        }
                    }
                    if t == op@ {
                        assert(ops@[p as int]@ == t);
                    }
                    if spec_token_set(ops@).contains(t) {
                        let i = choose|i: int| 0 <= i < ops@.len() && #[trigger] ops@[i]@ == t;
                        if i < p {
                            assert(self.ops@[i]@ == t);
                        } else if i > p {
                            assert(before[i - 1]@ == t);
                            assert(self.ops@[i - 1]@ == t);
                        }
                    }
                }
            }
            *self = KeyOps { ops };
        }
    }

    fn copy_tokens(&self) -> (r: Vec<String>)
        ensures
            r@.len() == self.ops@.len(),
            forall|j: int| 0 <= j < r@.len() ==> (#[trigger] r@[j])@ == self.ops@[j]@,
            spec_texts(r@) == spec_texts(self.ops@),
    {
        let mut r: Vec<String> = Vec::new();
        let mut i: usize = 0;
        while i < self.ops.len()
            invariant
                i <= self.ops.len(),
                r@.len() == i,
                forall|j: int| 0 <= j < i ==> (#[trigger] r@[j])@ == self.ops@[j]@,
            decreases self.ops.len() - i,
        {
            r.push(self.ops[i].clone());
            i += 1;
        }
        assert(spec_texts(r@) =~= spec_texts(self.ops@));
        r
    }

    /// The tokens, each once, sorted.
    pub fn tokens(&self) -> (r: Vec<String>)
        ensures
            spec_token_set(r@) == self@,
            spec_texts(r@) == spec_sorted_tokens(self@),
            spec_lists(spec_texts(r@), self@),
    {
        proof {
            use_type_invariant(self);
        }
        let r = self.copy_tokens();
        let ghost texts = spec_texts(r@);
        assert(spec_token_set(r@) =~= self@) by {
            assert forall|t: Seq<char>| spec_token_set(r@).contains(t) <==> self@.contains(t) by {
                if spec_token_set(r@).contains(t) {
                    let j = choose|j: int| 0 <= j < r@.len() && #[trigger] r@[j]@ == t;
                    assert(self.ops@[j]@ == t);
                }
                if self@.contains(t) {
                    let j = choose|j: int| 0 <= j < self.ops@.len() && #[trigger] self.ops@[j]@ == t;
                    assert(r@[j]@ == t);
                }
            }
        }
        assert forall|t: Seq<char>| texts.contains(t) <==> self@.contains(t) by {
            if texts.contains(t) {
                let j = choose|j: int| 0 <= j < texts.len() && texts[j] == t;
                assert(r@[j]@ == t);
                assert(spec_token_set(r@).contains(t));
            }
            if self@.contains(t) {
                let j = choose|j: int| 0 <= j < r@.len() && #[trigger] r@[j]@ == t;
                assert(texts[j] == t);
            }
        }
        assert(spec_lists(texts, self@));
        proof {
            let chosen = spec_sorted_tokens(self@);
            assert(spec_lists(chosen, self@));
            lemma_sorted_unique(texts, chosen);
        }
        r
    }
}

impl PartialEq for KeyOps {
    fn eq(&self, other: &Self) -> (r: bool) {
        let r = self.is_subset_of(other) && other.is_subset_of(self);
        proof {
            if r {
                assert(self@ =~= other@);
            }
        }
        r
    }
}

impl vstd::std_specs::cmp::PartialEqSpecImpl for KeyOps {
    open spec fn obeys_eq_spec() -> bool {
        true
    }

    open spec fn eq_spec(&self, other: &Self) -> bool {
        self@ == other@
    }
}

impl Eq for KeyOps {

}

impl Clone for KeyOps {
    fn clone(&self) -> (r: Self)
        ensures
            r@ == self@,
    {
        let ops = self.tokens();
        KeyOps { ops }
    }
}

} // verus!
