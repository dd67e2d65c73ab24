//! The lines that failures leave on the console.

use vstd::prelude::*;
use crate::cycle::{Diagnostic, Failure};

verus! {

impl Failure {
    /// How a line on the failure begins, up to the category's label.
    pub open spec fn opening_text(self) -> Seq<char> {
        match self {
            Failure::Fetch => "Error during fetch of "@,
            Failure::Write => "Error during influxdb write of "@,
        }
    }

    /// How a line on the failure begins, up to the category's label.
    pub fn opening(self) -> (text: &'static str)
        ensures
            text@ == self.opening_text(),
    {
        match self {
            Failure::Fetch => "Error during fetch of ",
            Failure::Write => "Error during influxdb write of ",
        }
    }
}

impl Diagnostic {
    /// The line for the diagnostic: what failed, the label of the category,
    /// and the detail that the failure came with.
    pub open spec fn line_text(self, detail: Seq<char>) -> Seq<char> {
        self.failure.opening_text() + self.category.label_text() + " occured: "@ + detail
    }

    /// The line for the diagnostic, ending in `detail`.
    pub fn line(&self, detail: &str) -> (text: String)
        ensures
            text@ == self.line_text(detail@),
    {
        let mut text = String::from_str(self.failure.opening());
        text.append(self.category.label());
        text.append(" occured: ");
        text.append(detail);
        text
    }
}

/// The line for a cycle that failed as a whole.
pub open spec fn cycle_failure_text(detail: Seq<char>) -> Seq<char> {
    "Error during fetch occured: "@ + detail
}

/// The line for a cycle that failed as a whole, ending in `detail`.
pub fn cycle_failure_line(detail: &str) -> (text: String)
    ensures
        text@ == cycle_failure_text(detail@),
{
    let mut text = String::from_str("Error during fetch occured: ");
    text.append(detail);
    text
}

} // verus!
