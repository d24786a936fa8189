//! How the program is called.

use vstd::prelude::*;

verus! {

/// The usage message: the program takes the path of the transactions file
/// and writes the accounts to standard output.
pub fn print_usage() -> (usage: String)
    ensures
        usage@ == "bkeeper transactions.csv\nor\ncargo run -- transactions.csv > accounts.csv"@,
{
    "bkeeper transactions.csv\nor\ncargo run -- transactions.csv > accounts.csv".to_owned()
}

} // verus!
