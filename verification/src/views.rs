//! Pointwise facts about the ghost views of vectors, shared as broadcast
//! lemmas by the modules that walk vectors and reason about their views.

use vstd::prelude::*;
use crate::lisp::{deep_pairs, deep_seq, names_of, Type};
use crate::semantics::{EnvS, Val};

verus! {

pub broadcast proof fn lemma_deep_seq_index(s: Seq<Type>, i: int)
    requires
        0 <= i < s.len(),
    ensures
        #[trigger] deep_seq(s)[i] == s[i].deep(),
{
}

pub broadcast proof fn lemma_deep_pairs_index(s: Seq<(String, Type)>, i: int)
    requires
        0 <= i < s.len(),
    ensures
        #[trigger] deep_pairs(s)[i] == (s[i].0@, s[i].1.deep()),
{
}

pub broadcast proof fn lemma_names_of_index(s: Seq<String>, i: int)
    requires
        0 <= i < s.len(),
    ensures
        #[trigger] names_of(s)[i] == s[i]@,
{
}

} // verus!
