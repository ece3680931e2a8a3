use vstd::prelude::*;

verus! {

/// What identity bootstrap yields: a client that can be used at once, or one
/// that waits for a signature over the given text.
#[derive(Clone, Debug, PartialEq, Eq)]
pub enum Bootstrap {
    Ready,
    RequiresSignature(String),
}

/// Decides the bootstrap outcome from the text the resolved identity still
/// needs signed, if any.
pub fn bootstrap_outcome(text_to_sign: Option<String>) -> (r: Bootstrap)
    ensures
        match text_to_sign {
            None => r == Bootstrap::Ready,
            Some(t) => r == Bootstrap::RequiresSignature(t),
        },
{
    match text_to_sign {
        None => Bootstrap::Ready,
        Some(t) => Bootstrap::RequiresSignature(t),
    }
}

} // verus!
