use vstd::prelude::*;

verus! {

/// The operating system the shell runs on.
#[derive(Clone, Copy, Debug, PartialEq, Eq, Structural)]
pub enum Platform {
    Unknown,
    MacOS,
    Windows,
    Linux,
    Android,
}

/// The platform named by an operating-system name as the standard library
/// spells it (`std::env::consts::OS`).
pub open spec fn platform_of_os(os: Seq<char>) -> Platform {
    if os == "macos"@ {
        Platform::MacOS
    } else if os == "windows"@ {
        Platform::Windows
    } else if os == "linux"@ {
        Platform::Linux
    } else if os == "android"@ {
        Platform::Android
    } else {
        Platform::Unknown
    }
}

/// Whether two strings hold the same characters.
fn same_text(a: &str, b: &str) -> (res: bool)
    ensures
        res == (a@ == b@),
{
    let a_owned: String = a.to_owned();
    let b_owned: String = b.to_owned();
    a_owned == b_owned
}

impl Platform {
    /// The platform named by `os`, an operating-system name as
    /// `std::env::consts::OS` spells it; every name other than the four known
    /// ones gives `Unknown`.
    pub fn from_os_name(os: &str) -> (res: Platform)
        ensures
            res == platform_of_os(os@),
    {
        if same_text(os, "macos") {
            Platform::MacOS
        } else if same_text(os, "windows") {
            Platform::Windows
        } else if same_text(os, "linux") {
            Platform::Linux
        } else if same_text(os, "android") {
            Platform::Android
        } else {
            Platform::Unknown
        }
    }
}

/// Each known platform is recognised by exactly its own name.
pub proof fn lemma_known_platform_names()
    ensures
        platform_of_os("macos"@) == Platform::MacOS,
        platform_of_os("windows"@) == Platform::Windows,
        platform_of_os("linux"@) == Platform::Linux,
        platform_of_os("android"@) == Platform::Android,
{
    reveal_strlit("macos");
    reveal_strlit("windows");
    reveal_strlit("linux");
    reveal_strlit("android");
    assert("windows"@.len() != "macos"@.len());
    assert("linux"@[0] != "macos"@[0]);
    assert("linux"@.len() != "windows"@.len());
    assert("android"@.len() != "macos"@.len());
    assert("android"@[0] != "windows"@[0]);
    assert("android"@.len() != "linux"@.len());
}

} // verus!
