//! Argument-vector helpers.

use vstd::prelude::*;
use crate::text::string_equal;

verus! {

/// Whether `prefix` is a prefix of `argv`, word by word.
pub open spec fn has_prefix(argv: Seq<Seq<char>>, prefix: Seq<Seq<char>>) -> bool {
    prefix.len() <= argv.len() && argv.subrange(0, prefix.len() as int) == prefix
}

/// Whether `argv` starts with `prefix`.
///
/// This is the registry's matching rule; it works on one command already split
/// into words.
pub fn args_has_prefix(argv: &[String], prefix: &[String]) -> (r: bool)
    ensures
        r == has_prefix(argv.deep_view(), prefix.deep_view()),
{
    if argv.len() < prefix.len() {
        return false;
    }
    let mut i: usize = 0;
    while i < prefix.len()
        invariant
            prefix.len() <= argv.len(),
            i <= prefix.len(),
            forall|j: int| 0 <= j < i ==> argv.deep_view()[j] == prefix.deep_view()[j],
        decreases prefix.len() - i,
    {
        if !string_equal(&argv[i], &prefix[i]) {
            proof {
                assert(argv.deep_view().subrange(0, prefix.len() as int)[i as int]
                    != prefix.deep_view()[i as int]);
            }
            return false;
        }
        i = i + 1;
    }
    assert(argv.deep_view().subrange(0, prefix.len() as int) =~= prefix.deep_view());
    true
}

/// Every argument vector starts with itself, and with the empty prefix.
pub proof fn lemma_prefix_reflexive(argv: Seq<Seq<char>>)
    ensures
        has_prefix(argv, argv),
        has_prefix(argv, Seq::empty()),
{
    assert(argv.subrange(0, argv.len() as int) =~= argv);
    assert(argv.subrange(0, 0) =~= Seq::<Seq<char>>::empty());
}

/// A prefix stays a prefix when words are appended to the argument vector.
pub proof fn lemma_prefix_of_extension(prefix: Seq<Seq<char>>, rest: Seq<Seq<char>>)
    ensures
        has_prefix(prefix + rest, prefix),
{
    assert((prefix + rest).subrange(0, prefix.len() as int) =~= prefix);
}

} // verus!
