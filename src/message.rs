use vstd::prelude::*;

verus! {

/// What the user asked for in the window.
#[derive(Debug, Clone)]
pub enum Message {
    /// Probe every repository again.
    Refresh,
    /// Close the window.
    Quit,
    /// Start the interactive git client in the named repository.
    Lazygit(String),
}

} // verus!
