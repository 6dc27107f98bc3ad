use openworkers_core::{BindingInfo, BindingType, Script};
use std::collections::HashMap;

#[test]
fn binding_constructors() {
    let info = BindingInfo::new("ANY", BindingType::Kv);
    assert_eq!(info.name, "ANY");
    assert_eq!(info.binding_type, BindingType::Kv);
    assert_eq!(BindingInfo::assets("ASSETS").binding_type, BindingType::Assets);
    assert_eq!(BindingInfo::assets("ASSETS").name, "ASSETS");
    assert_eq!(BindingInfo::storage("BUCKET".to_string()).binding_type, BindingType::Storage);
    assert_eq!(BindingInfo::storage("BUCKET".to_string()).name, "BUCKET");
    assert_eq!(BindingInfo::kv("KV").binding_type, BindingType::Kv);
    assert_eq!(BindingInfo::kv("KV").name, "KV");
    assert_eq!(BindingInfo::database("DB").binding_type, BindingType::Database);
    assert_eq!(BindingInfo::database("DB").name, "DB");
}

#[test]
fn script_with_code_only() {
    let script = Script::new("export default {}");
    assert_eq!(script.code, "export default {}");
    assert!(script.env.is_none());
    assert!(script.bindings.is_empty());
}

#[test]
fn script_with_env() {
    let mut env = HashMap::new();
    env.insert("KEY".to_string(), "value".to_string());
    let script = Script::with_env("code".to_string(), env.clone());
    assert_eq!(script.code, "code");
    assert_eq!(script.env, Some(env));
    assert!(script.bindings.is_empty());
}

#[test]
fn script_with_bindings() {
    let script = Script::with_bindings("code", None, vec![BindingInfo::kv("A"), BindingInfo::assets("B")]);
    assert_eq!(script.code, "code");
    assert!(script.env.is_none());
    assert_eq!(script.bindings.len(), 2);
    assert_eq!(script.bindings[0].name, "A");
    assert_eq!(script.bindings[1].binding_type, BindingType::Assets);
}

#[test]
fn add_binding_appends() {
    let script = Script::new("code").add_binding(BindingInfo::kv("A")).add_binding(BindingInfo::database("B"));
    assert_eq!(script.code, "code");
    assert!(script.env.is_none());
    assert_eq!(script.bindings.len(), 2);
    assert_eq!(script.bindings[0].name, "A");
    assert_eq!(script.bindings[0].binding_type, BindingType::Kv);
    assert_eq!(script.bindings[1].name, "B");
    assert_eq!(script.bindings[1].binding_type, BindingType::Database);
}
