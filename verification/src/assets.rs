use vstd::prelude::*;

verus! {

/// Where the pictures and sounds are found.
#[derive(Debug, Clone, Copy, PartialEq, Eq, Structural)]
pub enum AssetsDir {
    /// `/usr/share/meow-simulator`, where a system package puts them (Linux).
    System,
    /// The `assets` directory beside the executable.
    BesideExe,
}

/// The assets directory to use: the system one where it exists, else the one
/// beside the executable where that exists, else none (the program cannot run).
pub fn choose_assets_dir(system_exists: bool, beside_exe_exists: bool) -> (d: Option<AssetsDir>)
    ensures
        d == (if system_exists {
            Some(AssetsDir::System)
        } else if beside_exe_exists {
            Some(AssetsDir::BesideExe)
        } else {
            None
        }),
{
    if system_exists {
        Some(AssetsDir::System)
    } else if beside_exe_exists {
        Some(AssetsDir::BesideExe)
    } else {
        None
    }
}

} // verus!
