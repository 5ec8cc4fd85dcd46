//! The capabilities the application attaches at startup, and their order.

use vstd::prelude::*;

verus! {

/// A capability that the application attaches to the framework at startup.
#[derive(Clone, Copy, Debug, PartialEq, Eq, Structural)]
pub enum Plugin {
    /// Logging, set up from the application's logging configuration.
    Log,
    /// The HTTP client.
    Http,
    /// The updater.
    Updater,
    /// Keeping window geometry between runs.
    WindowState,
    /// Information about the operating system.
    Os,
    /// File dialogs.
    Dialog,
    /// Access to the file system.
    Fs,
    /// Opening files and addresses with other programs.
    Opener,
    /// Keeping permission scopes between runs.
    PersistedScope,
}

/// The order of attachment: logging first, then the eight capabilities.
pub open spec fn startup_order() -> Seq<Plugin> {
    seq![
        Plugin::Log,
        Plugin::Http,
        Plugin::Updater,
        Plugin::WindowState,
        Plugin::Os,
        Plugin::Dialog,
        Plugin::Fs,
        Plugin::Opener,
        Plugin::PersistedScope,
    ]
}

/// Returns the plugins to attach, first to last. The caller attaches them one
/// after another in this order, before it registers commands and runs.
pub fn startup_plugins() -> (plugins: Vec<Plugin>)
    ensures
        plugins@ == startup_order(),
{
    let mut plugins: Vec<Plugin> = Vec::new();
    plugins.push(Plugin::Log);
    plugins.push(Plugin::Http);
    plugins.push(Plugin::Updater);
    plugins.push(Plugin::WindowState);
    plugins.push(Plugin::Os);
    plugins.push(Plugin::Dialog);
    plugins.push(Plugin::Fs);
    plugins.push(Plugin::Opener);
    plugins.push(Plugin::PersistedScope);
    assert(plugins@ =~= startup_order());
    plugins
}

/// Every plugin is attached exactly once: each has a place in the order, and
/// no place repeats an earlier one.
pub proof fn lemma_startup_order_complete(plugin: Plugin)
    ensures
        startup_order().contains(plugin),
        startup_order().no_duplicates(),
        startup_order().len() == 9,
{
    let order = startup_order();
    let place: int = match plugin {
        Plugin::Log => 0,
        Plugin::Http => 1,
        Plugin::Updater => 2,
        Plugin::WindowState => 3,
        Plugin::Os => 4,
        Plugin::Dialog => 5,
        Plugin::Fs => 6,
        Plugin::Opener => 7,
        Plugin::PersistedScope => 8,
    };
    assert(order[place] == plugin);
}

} // verus!
