//! A recipe that stays in the house.

use vstd::prelude::*;
use vstd::string::StringExecFns;

verus! {

/// The recipe: ginger.
pub fn get_secret_recipe() -> (recipe: String)
    ensures
        recipe@ == "Ginger"@,
{
    String::from_str("Ginger")
}

} // verus!
