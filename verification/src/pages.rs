//! The data behind the report's index page.
//!
//! Rendering the page from these values is template work that
//! embedding code performs; the library only fixes the values.

use vstd::prelude::*;

verus! {

/// The contributing section of the index page.
#[derive(Debug)]
pub struct ContributingSection {
    pub todo_time: String,
    pub todo_crates: u64,
    pub todo_targets: u64,
    pub low_estimate: String,
    pub high_estimate: String,
}

/// The data of the report's index page.
#[derive(Debug)]
pub struct IndexPage {
    pub contributing: ContributingSection,
}

impl IndexPage {
    /// The index page's data, as last taken stock of.
    pub fn new() -> (r: Self)
        ensures
            r.contributing.todo_time@ == "Sun Nov 15 13:58:18 2020"@,
            r.contributing.todo_crates == 1551u64,
            r.contributing.todo_targets == 1487182u64,
            r.contributing.low_estimate@ ==
                "80.76 days ( 1938.28 hours ( 116296.72 minutes ( 6977803 seconds ) ) )"@,
            r.contributing.high_estimate@ ==
                "2.83 years ( 1032.77 days ( 24786.37 hours ( 1487182.00 minutes ( 89230920 seconds ) ) ) )"@,
    {
        IndexPage {
            contributing: ContributingSection {
                todo_time: String::from_str("Sun Nov 15 13:58:18 2020"),
                todo_crates: 1551,
                todo_targets: 1487182,
                low_estimate: String::from_str(
                    "80.76 days ( 1938.28 hours ( 116296.72 minutes ( 6977803 seconds ) ) )",
                ),
                high_estimate: String::from_str(
                    "2.83 years ( 1032.77 days ( 24786.37 hours ( 1487182.00 minutes ( 89230920 seconds ) ) ) )",
                ),
            },
        }
    }
}

} // verus!
