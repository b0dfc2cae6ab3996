//! The platform selector: the one choice among the supported operating
//! systems from which URLs, sizes and post-download steps are picked.

use vstd::prelude::*;

verus! {

/// The operating systems a release is published for.
#[derive(Clone, Copy, Debug, PartialEq, Eq, Structural)]
pub enum Platform {
    Windows,
    Linux,
    Macos,
}

impl Platform {
    /// The platform selected for an operating-system name: `"macos"` and
    /// `"windows"` select themselves, every other name selects Linux.
    pub open spec fn of_os_name(name: Seq<char>) -> Platform {
        if name == "macos"@ {
            Platform::Macos
        } else if name == "windows"@ {
            Platform::Windows
        } else {
            Platform::Linux
        }
    }

    /// Whether a freshly downloaded artifact has to be marked executable
    /// before it can be started.
    pub open spec fn marks_executable(self) -> bool {
        self == Platform::Macos
    }

    /// Selects the platform from the name the running system reports for
    /// itself.
    pub fn from_os_name(name: &str) -> (platform: Platform)
        ensures
            platform == Self::of_os_name(name@),
    {
        if str_equal(name, "macos") {
            Platform::Macos
        } else if str_equal(name, "windows") {
            Platform::Windows
        } else {
            Platform::Linux
        }
    }

    /// Tells whether an artifact downloaded for this platform has to be
    /// marked executable: so for macOS, not for the others.
    pub fn requires_executable_mark(&self) -> (needed: bool)
        ensures
            needed == self.marks_executable(),
    {
        match self {
            Platform::Macos => true,
            _ => false,
        }
    }
}

/// Whether two string slices hold the same text.
pub(crate) fn str_equal(a: &str, b: &str) -> (same: bool)
    ensures
        same == (a@ == b@),
{
    a.to_owned() == b.to_owned()
}

} // verus!
