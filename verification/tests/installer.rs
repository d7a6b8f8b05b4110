use studio_companion::plugin::{
    bytes_equal, get_plugin_path, get_plugins_dir, plugin_path_for, plugins_dir_for,
    InstallOutcome, PluginStore,
};

#[test]
fn first_install_writes_then_second_is_current() {
    let bundled = vec![0x3cu8, 0x72, 0x6f, 0x62, 0x6c, 0x6f, 0x78, 0x3e];
    let mut store = PluginStore::absent();
    assert_eq!(store.install_plugin(&bundled), InstallOutcome::Installed);
    assert_eq!(store.file.as_deref(), Some(bundled.as_slice()));
    assert_eq!(store.install_plugin(&bundled), InstallOutcome::AlreadyCurrent);
    assert_eq!(store.file.as_deref(), Some(bundled.as_slice()));
}

#[test]
fn matching_preexisting_file_is_already_current() {
    let bundled = vec![1u8, 2, 3];
    let mut store = PluginStore::present(bundled.clone());
    assert_eq!(store.install_plugin(&bundled), InstallOutcome::AlreadyCurrent);
    assert_eq!(store.file.as_deref(), Some(bundled.as_slice()));
}

#[test]
fn outdated_file_is_overwritten() {
    let bundled = vec![9u8, 9, 9];
    let mut store = PluginStore::present(vec![1u8, 2, 3]);
    assert_eq!(store.install_plugin(&bundled), InstallOutcome::Installed);
    assert_eq!(store.file.as_deref(), Some(bundled.as_slice()));
}

#[test]
fn same_length_different_bytes_is_overwritten() {
    let bundled = vec![1u8, 2, 4];
    let mut store = PluginStore::present(vec![1u8, 2, 3]);
    assert_eq!(store.install_plugin(&bundled), InstallOutcome::Installed);
}

#[test]
fn empty_bundle_installs() {
    let bundled: Vec<u8> = Vec::new();
    let mut store = PluginStore::absent();
    assert_eq!(store.install_plugin(&bundled), InstallOutcome::Installed);
    assert_eq!(store.install_plugin(&bundled), InstallOutcome::AlreadyCurrent);
}

#[test]
fn install_then_query_then_uninstall() {
    let mut store = PluginStore::absent();
    assert!(!store.is_plugin_installed());
    store.install_plugin(&vec![7u8]);
    assert!(store.is_plugin_installed());
    assert!(store.uninstall_plugin());
    assert!(!store.is_plugin_installed());
    assert!(!store.uninstall_plugin());
}

#[test]
fn byte_comparison_is_exact() {
    assert!(bytes_equal(&vec![], &vec![]));
    assert!(bytes_equal(&vec![5u8, 6], &vec![5u8, 6]));
    assert!(!bytes_equal(&vec![5u8, 6], &vec![5u8]));
    assert!(!bytes_equal(&vec![5u8, 6], &vec![5u8, 7]));
}

#[test]
fn paths_are_built_under_home() {
    assert_eq!(
        plugins_dir_for("/Users/alice"),
        "/Users/alice/Documents/Roblox/Plugins"
    );
    assert_eq!(
        plugin_path_for("/Users/alice"),
        "/Users/alice/Documents/Roblox/Plugins/DetAI.rbxm"
    );
}

#[test]
fn resolved_paths_end_with_fixed_tail() {
    if let Some(dir) = get_plugins_dir() {
        assert!(dir.ends_with("/Documents/Roblox/Plugins"));
    }
    if let Some(path) = get_plugin_path() {
        assert!(path.ends_with("/Documents/Roblox/Plugins/DetAI.rbxm"));
    }
}
