//! A worker's script and the bindings it may use.

use vstd::prelude::*;
use std::collections::HashMap;

verus! {

/// Type of binding (resource type)
#[derive(Debug, Clone, Copy, PartialEq, Eq, Structural)]
pub enum BindingType {
    /// Static assets (read-only object storage)
    Assets,
    /// Object storage (read-write)
    Storage,
    /// Key-value store
    Kv,
    /// Database
    Database,
}

/// Binding info passed to the runtime (name + type, no credentials)
#[derive(Debug, Clone)]
pub struct BindingInfo {
    /// Binding name as the script sees it (e.g., "ASSETS", "MY_BUCKET")
    pub name: String,
    /// Type of binding
    pub binding_type: BindingType,
}

impl BindingInfo {
    /// A binding of the given type. The name is what `Into::into` makes of
    /// the argument: for a string slice a string of the same characters, for
    /// a string that string.
    pub fn new<S: Into<String>>(name: S, binding_type: BindingType) -> (info: BindingInfo)
        ensures
            call_ensures(<S as Into<String>>::into, (name,), info.name),
            info.binding_type == binding_type,
    {
        BindingInfo { name: name.into(), binding_type }
    }

    pub fn assets<S: Into<String>>(name: S) -> (info: BindingInfo)
        ensures
            call_ensures(<S as Into<String>>::into, (name,), info.name),
            info.binding_type == BindingType::Assets,
    {
        Self::new(name, BindingType::Assets)
    }

    pub fn storage<S: Into<String>>(name: S) -> (info: BindingInfo)
        ensures
            call_ensures(<S as Into<String>>::into, (name,), info.name),
            info.binding_type == BindingType::Storage,
    {
        Self::new(name, BindingType::Storage)
    }

    pub fn kv<S: Into<String>>(name: S) -> (info: BindingInfo)
        ensures
            call_ensures(<S as Into<String>>::into, (name,), info.name),
            info.binding_type == BindingType::Kv,
    {
        Self::new(name, BindingType::Kv)
    }

    pub fn database<S: Into<String>>(name: S) -> (info: BindingInfo)
        ensures
            call_ensures(<S as Into<String>>::into, (name,), info.name),
            info.binding_type == BindingType::Database,
    {
        Self::new(name, BindingType::Database)
    }
}

/// Script with code, environment variables, and bindings
#[derive(Debug, Clone)]
pub struct Script {
    pub code: String,
    pub env: Option<HashMap<String, String>>,
    /// Bindings available to the worker (names + types only, no credentials)
    pub bindings: Vec<BindingInfo>,
}

impl Script {
    /// Create a new script with code only. The code is what `Into::into`
    /// makes of the argument: for a string slice a string of the same
    /// characters, for a string that string.
    pub fn new<S: Into<String>>(code: S) -> (script: Script)
        ensures
            call_ensures(<S as Into<String>>::into, (code,), script.code),
            script.env is None,
            script.bindings@ == Seq::<BindingInfo>::empty(),
    {
        Script { code: code.into(), env: None, bindings: Vec::new() }
    }

    /// Create a new script with code and environment variables
    pub fn with_env<S: Into<String>>(code: S, env: HashMap<String, String>) -> (script: Script)
        ensures
            call_ensures(<S as Into<String>>::into, (code,), script.code),
            script.env == Some(env),
            script.bindings@ == Seq::<BindingInfo>::empty(),
    {
        Script { code: code.into(), env: Some(env), bindings: Vec::new() }
    }

    /// Create a new script with code, environment variables, and bindings
    pub fn with_bindings<S: Into<String>>(
        code: S,
        env: Option<HashMap<String, String>>,
        bindings: Vec<BindingInfo>,
    ) -> (script: Script)
        ensures
            call_ensures(<S as Into<String>>::into, (code,), script.code),
            script.env == env,
            script.bindings == bindings,
    {
        Script { code: code.into(), env, bindings }
    }

    /// Add a binding to the script, behind the ones it has
    pub fn add_binding(self, binding: BindingInfo) -> (script: Script)
        ensures
            script.code == self.code,
            script.env == self.env,
            script.bindings@ == self.bindings@.push(binding),
    {
        let mut script = self;
        script.bindings.push(binding);
        script
    }
}

} // verus!
