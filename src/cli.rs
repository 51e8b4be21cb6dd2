//! The runner's command line: the contract modules to run, in order.

use vstd::prelude::*;

verus! {

/// The contract modules to run, each by its path.
#[derive(Clone, Debug, PartialEq, Eq)]
pub struct Args {
    pub contract_paths: Vec<String>,
}

} // verus!
