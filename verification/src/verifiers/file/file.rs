//! The verifier that compares two files line by line.

use vstd::prelude::*;
use similar::{DiffTag, TextDiff};
use crate::faker::ParamError;
use crate::verification::VerifyError;

verus! {

/// What one step of a line diff does to the expected text.
#[derive(Debug, Clone, Copy, PartialEq, Eq, Structural)]
pub enum DiffKind {
    Equal,
    Delete,
    Insert,
    Replace,
}

/// The two files to compare, by path.
#[derive(Debug)]
pub struct FileComparator {
    pub expected: String,
    pub actual: String,
}

/// The steps of the line diff that leads from one text to the other.
pub uninterp spec fn line_diff(expected: Seq<char>, actual: Seq<char>) -> Seq<DiffKind>;

/// `TextDiff::from_lines`, then `DiffOp::tag` on each of `TextDiff::ops`:
/// trusted to depend on the two texts alone (no deadline is set).
#[verifier::external_body]
pub(crate) fn diff_lines(expected: &str, actual: &str) -> (steps: Vec<DiffKind>)
    ensures
        steps@ == line_diff(expected@, actual@),
{
    let diff = TextDiff::from_lines(expected, actual);
    diff.ops().iter().map(|op| match op.tag() {
        DiffTag::Equal => DiffKind::Equal,
        DiffTag::Delete => DiffKind::Delete,
        DiffTag::Insert => DiffKind::Insert,
        DiffTag::Replace => DiffKind::Replace,
    }).collect()
}

/// Whether a diff changes nothing.
pub open spec fn unchanged(steps: Seq<DiffKind>) -> bool {
    forall|i: int| 0 <= i < steps.len() ==> steps[i] is Equal
}

/// The position of the first step that is a change, if there is one.
pub fn first_change(steps: &Vec<DiffKind>) -> (at: Option<usize>)
    ensures
        match at {
            Some(i) => i < steps@.len() && !(steps@[i as int] is Equal) && unchanged(
                steps@.take(i as int),
            ),
            None => unchanged(steps@),
        },
{
    let mut i: usize = 0;
    while i < steps.len()
        invariant
            i <= steps.len(),
            unchanged(steps@.take(i as int)),
        decreases steps.len() - i,
    {
        match steps[i] {
            DiffKind::Equal => {},
            _ => {
                return Some(i);
            },
        }
        proof {
            assert forall|k: int| 0 <= k < i + 1 implies (#[trigger] steps@.take(
                i + 1,
            )[k]) is Equal by {
                if k < i {
                    assert(steps@.take(i as int)[k] is Equal);
                }
            }
        }
        i = i + 1;
    }
    proof {
        assert(steps@.take(steps.len() as int) =~= steps@);
    }
    None
}

impl FileComparator {
    /// What is wrong with the parameters, the first fault first.
    pub open spec fn fault(&self) -> Option<ParamError> {
        if self.expected@.len() == 0 {
            Some(ParamError::ExpectedEmpty)
        } else if self.actual@.len() == 0 {
            Some(ParamError::ActualEmpty)
        } else {
            None
        }
    }

    /// Accepts parameters that name both files.
    pub fn validate_params(&self) -> (checked: Result<(), ParamError>)
        ensures
            match self.fault() {
                Some(error) => checked == Err::<(), ParamError>(error),
                None => checked is Ok,
            },
    {
        if self.expected.as_str().is_empty() {
            return Err(ParamError::ExpectedEmpty);
        }
        if self.actual.as_str().is_empty() {
            return Err(ParamError::ActualEmpty);
        }
        Ok(())
    }

    /// Compares the contents of the two files, each given as its text or as
    /// nothing where it could not be read: passes exactly when both were
    /// read and their line diff changes nothing.
    pub fn compare(expected: Option<&str>, actual: Option<&str>) -> (verdict: Result<
        (),
        VerifyError,
    >)
        ensures
            match (expected, actual) {
                (Some(e), Some(a)) => if unchanged(line_diff(e@, a@)) {
                    verdict is Ok
                } else {
                    verdict == Err::<(), VerifyError>(VerifyError::Different)
                },
                _ => verdict == Err::<(), VerifyError>(VerifyError::Unreadable),
            },
    {
        match (expected, actual) {
            (Some(e), Some(a)) => {
                let steps = diff_lines(e, a);
                match first_change(&steps) {
                    Some(_) => Err(VerifyError::Different),
                    None => Ok(()),
                }
            },
            _ => Err(VerifyError::Unreadable),
        }
    }
}

} // verus!
