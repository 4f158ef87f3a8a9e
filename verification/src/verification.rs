//! The verifier plugin contract and the table of registered verifiers.
//!
//! A verifier checks something that a scenario left behind. The table follows
//! the same rules as that of the fakers: filled once, read afterwards, and the
//! descriptor registered first wins a shared name.

use vstd::prelude::*;
use crate::faker::{resolve, resolve_is_found, resolve_unique, ParamError};
use crate::text::str_eq;

verus! {

/// Why a verification did not pass.
#[derive(Debug, Clone, Copy, PartialEq, Eq, Structural)]
pub enum VerifyError {
    /// What was to be read could not be read.
    Unreadable,
    /// The two texts differ.
    Different,
}

impl VerifyError {
    /// The sentence that states the failure.
    pub open spec fn text(self) -> Seq<char> {
        match self {
            VerifyError::Unreadable => "a file to compare cannot be read"@,
            VerifyError::Different => "Difference found between 2 files: expected & actual"@,
        }
    }

    /// States the failure in words, for logs.
    pub fn message(self) -> (text: &'static str)
        ensures
            text@ == self.text(),
    {
        match self {
            VerifyError::Unreadable => "a file to compare cannot be read",
            VerifyError::Different => "Difference found between 2 files: expected & actual",
        }
    }
}

/// What every verifier offers: a check of its parameters that touches
/// nothing, and the verification itself.
pub trait VerifierMod {
    /// Checks the parameters; must be called, and succeed, before `func`.
    fn validate_params(&self) -> Result<(), ParamError>;

    /// Runs the verification.
    fn func(&self) -> Result<(), VerifyError>;
}

/// A registered verifier: its name and the entry point that runs it.
pub struct Verifier<F> {
    pub name: &'static str,
    pub func: F,
}

/// The names of a table's descriptors, in registration order.
pub open spec fn names<F>(table: Seq<Verifier<F>>) -> Seq<Seq<char>> {
    Seq::new(table.len(), |i: int| table[i].name@)
}

/// Appends a descriptor to the table. Meant for process start, before the
/// first lookup.
pub fn register<F>(table: &mut Vec<Verifier<F>>, name: &'static str, func: F)
    ensures
        final(table)@ == old(table)@.push(Verifier { name, func }),
{
    table.push(Verifier { name, func });
}

/// The verifier called `name`, or nothing if none is registered under it:
/// exact match, case-sensitive.
pub fn get_verifier<'a, F>(table: &'a Vec<Verifier<F>>, name: &str) -> (found: Option<
    &'a Verifier<F>,
>)
    ensures
        match resolve(names(table@), name@) {
            Some(i) => found == Some(&table@[i as int]),
            None => found is None,
        },
{
    let mut i: usize = 0;
    while i < table.len()
        invariant
            i <= table.len(),
            forall|j: int| 0 <= j < i ==> names(table@)[j] != name@,
        decreases table.len() - i,
    {
        if str_eq(table[i].name, name) {
            proof {
                resolve_unique(names(table@), name@, Some(i));
            }
            return Some(&table[i]);
        }
        i = i + 1;
    }
    proof {
        resolve_unique(names(table@), name@, None);
    }
    None
}

/// Every registered name, in registration order.
pub fn get_verifier_names<F>(table: &Vec<Verifier<F>>) -> (listed: Vec<&'static str>)
    ensures
        listed@.len() == table@.len(),
        forall|i: int| 0 <= i < listed@.len() ==> listed@[i]@ == #[trigger] table@[i].name@,
{
    let mut listed: Vec<&'static str> = Vec::new();
    let mut i: usize = 0;
    while i < table.len()
        invariant
            i <= table.len(),
            listed@.len() == i,
            forall|k: int| 0 <= k < i ==> listed@[k]@ == #[trigger] table@[k].name@,
        decreases table.len() - i,
    {
        listed.push(table[i].name);
        i = i + 1;
    }
    listed
}

} // verus!
