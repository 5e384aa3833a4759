//! The host platform family, which decides the success rule of a script run
//! and the separator of `PATH` lists.
use vstd::prelude::*;

verus! {

/// The two families of host platform whose runners differ.
#[derive(Debug, Clone, Copy, PartialEq, Eq, Structural)]
pub enum Platform {
    /// Unix-like hosts: scripts run through a POSIX shell.
    Posix,
    /// Windows hosts: scripts run through PowerShell.
    Windows,
}

/// Separator of the entries of a `PATH`-style list on `p`.
pub open spec fn list_separator(p: Platform) -> char {
    match p {
        Platform::Posix => ':',
        Platform::Windows => ';',
    }
}

/// Relies on `std::path::MAIN_SEPARATOR`, the component separator of the
/// platform the library was built for: `\` on Windows and `/` on the others.
#[verifier::external_body]
fn main_separator() -> (r: char)
    ensures
        r == '/' || r == '\\',
{
    std::path::MAIN_SEPARATOR
}

impl Platform {
    /// The family whose path component separator is `sep`: Windows for `\`,
    /// POSIX otherwise.
    pub fn from_main_separator(sep: char) -> (r: Platform)
        ensures
            r == (if sep == '\\' { Platform::Windows } else { Platform::Posix }),
    {
        if sep == '\\' {
            Platform::Windows
        } else {
            Platform::Posix
        }
    }

    /// The family of the platform the library was built for, read from its
    /// path component separator.
    pub fn host() -> (r: Platform) {
        Platform::from_main_separator(main_separator())
    }

    /// Separator of the entries of a `PATH`-style list on this platform.
    pub fn path_list_separator(&self) -> (r: char)
        ensures
            r == list_separator(*self),
    {
        match self {
            Platform::Posix => ':',
            Platform::Windows => ';',
        }
    }
}

} // verus!
