//! Startup option checks and the non-interactive device prompt.
//!
//! Flag parsing itself lives outside the library; these functions decide
//! what the parsed flags mean before the capture loop starts.

use vstd::prelude::*;

verus! {

/// A configuration rejected before the loop starts.
#[derive(Clone, Copy, PartialEq, Eq, Structural, Debug)]
pub enum ConfigError {
    /// Verbose output and the interactive terminal view are mutually
    /// exclusive.
    VerboseWithInteractive,
    /// Clearing the export file requires an export path.
    ClearWithoutExport,
}

/// Check the mode flags, in the order the program reports them: verbose
/// with the interactive view first, then a clear request without an
/// export path.
pub fn validate_options(interactive: bool, verbose: bool, export_set: bool, clear: bool) -> (r:
    Result<(), ConfigError>)
    ensures
        interactive && verbose ==> r == Result::<(), ConfigError>::Err(
            ConfigError::VerboseWithInteractive,
        ),
        !(interactive && verbose) && clear && !export_set ==> r == Result::<(), ConfigError>::Err(
            ConfigError::ClearWithoutExport,
        ),
        !(interactive && verbose) && !(clear && !export_set) ==> r == Result::<(), ConfigError>::Ok(
            (),
        ),
{
    if interactive && verbose {
        Err(ConfigError::VerboseWithInteractive)
    } else if clear && !export_set {
        Err(ConfigError::ClearWithoutExport)
    } else {
        Ok(())
    }
}

/// Turn a one-based choice from the device prompt into a list index:
/// `Some` exactly for choices between 1 and the device count.
pub fn device_index_from_choice(choice: usize, count: usize) -> (r: Option<usize>)
    ensures
        1 <= choice <= count ==> r == Option::<usize>::Some((choice - 1) as usize),
        !(1 <= choice <= count) ==> r is None,
{
    if 1 <= choice && choice <= count {
        Some(choice - 1)
    } else {
        None
    }
}

} // verus!
