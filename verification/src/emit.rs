//! How the first place at which something fails is picked, and how the
//! outcome of a generator is stated.

use vstd::prelude::*;
use vstd::string::*;
use crate::error::{CodegenError, CodegenErrorView};
use crate::output::{GeneratorOutput, GeneratorOutputView};

verus! {

/// Whether `i` is the first place at which `flags` holds.
pub open spec fn is_first_flag(flags: Seq<bool>, i: int) -> bool {
    &&& 0 <= i < flags.len()
    &&& flags[i]
    &&& forall|k: int| 0 <= k < i ==> !flags[k]
}

/// The first place at which `flags` holds.
pub open spec fn first_flag(flags: Seq<bool>) -> Option<int> {
    if exists|i: int| is_first_flag(flags, i) {
        Some(choose|i: int| is_first_flag(flags, i))
    } else {
        None
    }
}

/// The first place at which `flags` holds is the only one before which it
/// holds nowhere.
pub proof fn lemma_first_flag(flags: Seq<bool>, i: int)
    requires
        is_first_flag(flags, i),
    ensures
        first_flag(flags) == Some(i),
{
    let chosen = choose|k: int| is_first_flag(flags, k);
    assert(is_first_flag(flags, chosen));
    if chosen < i {
        assert(!flags[chosen]);
    }
    if i < chosen {
        assert(!flags[i]);
    }
}

/// Flags that hold somewhere hold at a first place.
pub proof fn lemma_flag_has_first(flags: Seq<bool>, i: int)
    requires
        0 <= i < flags.len(),
        flags[i],
    ensures
        first_flag(flags) is Some,
    decreases i,
{
    if exists|k: int| 0 <= k < i && flags[k] {
        let k = choose|k: int| 0 <= k < i && flags[k];
        lemma_flag_has_first(flags, k);
    } else {
        assert(is_first_flag(flags, i));
    }
}

/// Flags that hold nowhere have no first place.
pub proof fn lemma_no_flag(flags: Seq<bool>)
    requires
        forall|i: int| 0 <= i < flags.len() ==> !flags[i],
    ensures
        first_flag(flags) is None,
{
}

/// The error of a generator that cannot render a definition.
pub open spec fn generator_error(generator: Seq<char>, owner: Seq<char>) -> CodegenErrorView {
    CodegenErrorView::Generator { generator, owner }
}

/// The outcome of a generator by its views.
pub open spec fn outcome_view(outcome: Result<GeneratorOutput, CodegenError>) -> Result<
    GeneratorOutputView,
    CodegenErrorView,
> {
    match outcome {
        Ok(output) => Ok(output@),
        Err(error) => Err(error@),
    }
}

/// The error of the generator called `generator` for the definition called
/// `owner`.
pub fn cannot_render(generator: &str, owner: &String) -> (error: CodegenError)
    ensures
        error@ == generator_error(generator@, owner@),
{
    CodegenError::Generator { generator: String::from_str(generator), owner: owner.clone() }
}

} // verus!
