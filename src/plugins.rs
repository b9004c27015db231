use vstd::prelude::*;

verus! {

/// A capability plugin that the application registers with the framework.
#[derive(Clone, Copy, Debug, PartialEq, Eq, Structural)]
pub enum Plugin {
    /// Checks for and installs application updates.
    Updater,
    /// System-wide keyboard shortcuts.
    GlobalShortcut,
    /// Filesystem access.
    Fs,
    /// Keeps one process of the application running; later launches hand
    /// their arguments to it.
    SingleInstance,
    /// Handles the application's deep-link URL schemes.
    DeepLink,
    /// Runs shell commands.
    Shell,
    /// Persistent key-value store.
    Store,
    /// HTTP client.
    Http,
    /// Discord rich-presence bridge.
    DiscordRpc,
    /// Opens URLs and files with the system's default handlers.
    Opener,
}

/// The plugins, in the order in which they are registered.
pub open spec fn registration_order() -> Seq<Plugin> {
    seq![
        Plugin::Updater,
        Plugin::GlobalShortcut,
        Plugin::Fs,
        Plugin::SingleInstance,
        Plugin::DeepLink,
        Plugin::Shell,
        Plugin::Store,
        Plugin::Http,
        Plugin::DiscordRpc,
        Plugin::Opener,
    ]
}

/// The plugins to register, each once, in the order of registration.
pub fn plugins_in_order() -> (r: Vec<Plugin>)
    ensures
        r@ == registration_order(),
        r@.no_duplicates(),
{
    let mut r: Vec<Plugin> = Vec::new();
    r.push(Plugin::Updater);
    r.push(Plugin::GlobalShortcut);
    r.push(Plugin::Fs);
    r.push(Plugin::SingleInstance);
    r.push(Plugin::DeepLink);
    r.push(Plugin::Shell);
    r.push(Plugin::Store);
    r.push(Plugin::Http);
    r.push(Plugin::DiscordRpc);
    r.push(Plugin::Opener);
    assert(r@ =~= registration_order());
    r
}

} // verus!
