use nova_bootstrap::builder::Builder;
use nova_bootstrap::plugin::{ApplicationContext, PluginDescriptor, SetupHook};

#[test]
fn order_preserved_in_application() {
    let b = Builder::new()
        .with_plugin(PluginDescriptor::new("fs".to_string()))
        .with_plugin(PluginDescriptor::new("dialog".to_string()))
        .with_plugin(PluginDescriptor::new("clipboard".to_string()));
    let app = b
        .build(ApplicationContext::new("Nova Editor".to_string()))
        .expect("all descriptors are well formed");
    let names: Vec<&str> = app.plugins.iter().map(|d| d.name.as_str()).collect();
    assert_eq!(names, vec!["fs", "dialog", "clipboard"]);
}

#[test]
fn empty_builder_builds() {
    let app = Builder::new()
        .build(ApplicationContext::new("Nova Editor".to_string()))
        .expect("an empty builder is a valid configuration");
    assert_eq!(app.plugins.len(), 0);
    assert!(app.setup.is_none());
}

#[test]
fn build_keeps_context_and_hook() {
    let app = Builder::new()
        .with_plugin(PluginDescriptor::new("fs".to_string()))
        .with_setup(SetupHook::new(9))
        .build(ApplicationContext::new("Nova Editor".to_string()))
        .expect("well formed");
    assert_eq!(app.context.app_name, "Nova Editor");
    assert_eq!(app.setup, Some(SetupHook::new(9)));
}

#[test]
fn malformed_descriptors_aggregate_into_one_report() {
    let b = Builder::new()
        .with_plugin(PluginDescriptor::new("fs".to_string()))
        .with_plugin(PluginDescriptor::new(String::new()))
        .with_plugin(PluginDescriptor::new("dialog".to_string()))
        .with_plugin(PluginDescriptor::new(String::new()));
    let err = b
        .build(ApplicationContext::new("Nova Editor".to_string()))
        .expect_err("two descriptors are malformed");
    assert_eq!(err.errors.len(), 2);
    assert_eq!(err.errors[0].index, 1);
    assert_eq!(err.errors[0].name, "");
    assert_eq!(err.errors[1].index, 3);
    assert_eq!(err.errors[1].name, "");
}

#[test]
fn single_malformed_descriptor_fails_build() {
    let err = Builder::new()
        .with_plugin(PluginDescriptor::new(String::new()))
        .build(ApplicationContext::new("Nova Editor".to_string()))
        .expect_err("the only descriptor is malformed");
    assert_eq!(err.errors.len(), 1);
    assert_eq!(err.errors[0].index, 0);
}

#[test]
fn with_setup_twice_keeps_only_the_second_hook() {
    let app = Builder::new()
        .with_setup(SetupHook::new(1))
        .with_setup(SetupHook::new(2))
        .build(ApplicationContext::new("Nova Editor".to_string()))
        .expect("well formed");
    assert_eq!(app.setup, Some(SetupHook::new(2)));
}

#[test]
fn descriptor_well_formedness() {
    assert!(PluginDescriptor::new("fs".to_string()).is_well_formed());
    assert!(!PluginDescriptor::new(String::new()).is_well_formed());
}
