use vstd::prelude::*;

verus! {

/// The error conditions the wait core reports or carries.
#[derive(Clone, Copy, Debug, PartialEq, Eq, Structural)]
pub enum Error {
    /// The handle identifier names no entry in the table.
    Badf,
    /// The entry exists but lacks a capability the operation requires.
    NotCapable,
    /// The backend hit an I/O failure while probing one handle; carried in
    /// that interest's result only, never escalated to the whole batch.
    Io,
}

} // verus!
