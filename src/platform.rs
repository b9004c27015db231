use vstd::prelude::*;

verus! {

/// The operating system the application was built for.
#[derive(Clone, Copy, Debug, PartialEq, Eq, Structural)]
pub enum Platform {
    Windows,
    Linux,
    MacOs,
    Ios,
    Android,
    Other,
}

/// Deep-link URL schemes are registered with the operating system at start-up
/// on Windows and Linux, and nowhere else.
pub open spec fn registers_deep_links_at_startup(p: Platform) -> bool {
    p == Platform::Windows || p == Platform::Linux
}

/// Whether start-up asks the operating system to register the application's
/// deep-link URL schemes on platform `p`.
pub fn registers_deep_links(p: Platform) -> (r: bool)
    ensures
        r == registers_deep_links_at_startup(p),
{
    match p {
        Platform::Windows => true,
        Platform::Linux => true,
        _ => false,
    }
}

} // verus!
