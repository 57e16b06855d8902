use dm_noesis::gui::resource_chain;

#[test]
fn empty_chain_installs_nothing() {
    assert_eq!(resource_chain(&[]), None);
}

#[test]
fn chain_keeps_dependency_order() {
    let chain = resource_chain(&["Theme/Colors.xaml", "Theme/Brushes.xaml", "Theme/Styles.xaml"]);
    assert_eq!(
        chain,
        Some(vec![
            b"Theme/Colors.xaml\0".to_vec(),
            b"Theme/Brushes.xaml\0".to_vec(),
            b"Theme/Styles.xaml\0".to_vec(),
        ])
    );
}

#[test]
fn single_leaf_chain() {
    assert_eq!(resource_chain(&["a.xaml"]), Some(vec![b"a.xaml\0".to_vec()]));
}
