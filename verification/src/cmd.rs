//! The command surface: one operation per variant. A command carries either
//! full construction parameters (`Add`), or a selector plus sparse overrides
//! (`Edit`), or a selector alone. Running a command against the management
//! service is the surrounding program's job; every ordinal-bearing command
//! resolves its selector against a freshly fetched list first.

use vstd::prelude::*;

use crate::add::AddCustomCommands;
use crate::edit::EditCustomCommands;
use crate::select::SelectItem;

verus! {

/// One operation on the catalog of API access methods.
#[derive(Debug, PartialEq, Eq)]
pub enum ApiAccess {
    /// List the configured API access methods.
    List,
    /// Add a custom API access method.
    Add(AddCustomCommands),
    /// Edit an API access method.
    Edit(EditCustomCommands),
    /// Remove an API access method.
    Remove(SelectItem),
    /// Enable an API access method.
    Enable(SelectItem),
    /// Disable an API access method.
    Disable(SelectItem),
    /// Test an API access method.
    Test(SelectItem),
    /// Force the use of a specific API access method.
    Use(SelectItem),
}

} // verus!
