use desktop_shell::{startup_plugins, Plugin};

#[test]
fn startup_plugins_in_order() {
    assert_eq!(
        startup_plugins(),
        vec![
            Plugin::Log,
            Plugin::Http,
            Plugin::Updater,
            Plugin::WindowState,
            Plugin::Os,
            Plugin::Dialog,
            Plugin::Fs,
            Plugin::Opener,
            Plugin::PersistedScope,
        ]
    );
}

#[test]
fn startup_plugins_logging_comes_first() {
    assert_eq!(startup_plugins()[0], Plugin::Log);
}

#[test]
fn startup_plugins_each_exactly_once() {
    let all = [
        Plugin::Log,
        Plugin::Http,
        Plugin::Updater,
        Plugin::WindowState,
        Plugin::Os,
        Plugin::Dialog,
        Plugin::Fs,
        Plugin::Opener,
        Plugin::PersistedScope,
    ];
    let plugins = startup_plugins();
    assert_eq!(plugins.len(), 9);
    for plugin in all {
        assert_eq!(plugins.iter().filter(|p| **p == plugin).count(), 1);
    }
}

#[test]
fn startup_plugins_same_on_every_call() {
    assert_eq!(startup_plugins(), startup_plugins());
}
