//! The configuration that is read from the environment at start-up.

use vstd::prelude::*;

verus! {

/// The reason why an environment variable could not be read.
#[derive(Debug)]
pub enum EnvErrorReason {
    /// The variable is not set.
    Missing,
    /// The variable's value is not valid UTF-8.
    NotUtf8,
    /// The variable's value could not be parsed; the text says why.
    Malformed(String),
}

/// An error while reading and parsing an environment variable.
#[derive(Debug)]
pub struct EnvError {
    /// The environment variable which caused this error.
    pub name: String,
    /// The reason why the variable could not be read.
    pub reason: EnvErrorReason,
}

/// The errors among the outcomes of loading the variables, in their order.
pub open spec fn errors_of(results: Seq<Result<(), EnvError>>) -> Seq<EnvError>
    decreases results.len(),
{
    if results.len() == 0 {
        Seq::empty()
    } else {
        let earlier = errors_of(results.drop_last());
        match results.last() {
            Ok(_) => earlier,
            Err(error) => earlier.push(error),
        }
    }
}

/// Gathers the errors of loading all environment variables, so that they can
/// be reported at once.
///
/// `results` holds the outcome of loading each variable. The configuration is
/// complete exactly when none of them is an error; otherwise every error is
/// handed back, in the order of the variables.
pub fn load_env<'a>(results: &'a Vec<Result<(), EnvError>>) -> (loaded: Result<(), Vec<&'a EnvError>>)
    ensures
        match loaded {
            Ok(_) => errors_of(results@).len() == 0,
            Err(errors) => {
                &&& errors@.len() > 0
                &&& errors@.len() == errors_of(results@).len()
                &&& forall|i: int| 0 <= i < errors@.len() ==> *errors@[i] == errors_of(results@)[i]
            },
        },
{
    let mut errors: Vec<&'a EnvError> = Vec::new();
    let mut index: usize = 0;
    while index < results.len()
        invariant
            index <= results.len(),
            errors@.len() == errors_of(results@.take(index as int)).len(),
            forall|i: int|
                0 <= i < errors@.len() ==> *errors@[i] == errors_of(results@.take(index as int))[i],
        decreases results.len() - index,
    {
        proof {
            let next = results@.take(index + 1);
            assert(next.drop_last() == results@.take(index as int));
            assert(next.last() == results@[index as int]);
        }
        match &results[index] {
            Ok(_) => {},
            Err(error) => {
                errors.push(error);
            },
        }
        index += 1;
    }
    proof {
        assert(results@.take(index as int) == results@);
    }
    if errors.is_empty() {
        Ok(())
    } else {
        Err(errors)
    }
}

} // verus!
