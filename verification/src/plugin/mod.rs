use crate::context_provider::wasm_context_provider::WasmContextProviderError;
use crate::user::User;
use crate::KeyPath;
use std::sync::Arc;
use vstd::prelude::*;

verus! {

#[derive(Debug)]
pub enum PreActionPluginError {
    WasmPreActionPluginError { source: WasmContextProviderError },
}

impl From<WasmContextProviderError> for PreActionPluginError {
    fn from(source: WasmContextProviderError) -> (r: Self) {
        PreActionPluginError::WasmPreActionPluginError { source }
    }
}

impl vstd::std_specs::convert::FromSpecImpl<WasmContextProviderError> for PreActionPluginError {
    open spec fn obeys_from_spec() -> bool {
        true
    }

    open spec fn from_spec(v: WasmContextProviderError) -> PreActionPluginError {
        PreActionPluginError::WasmPreActionPluginError { source: v }
    }
}

/// What a pre-action plugin is shown of a request.
pub struct PreActionPluginContext {
    pub user: Arc<dyn User>,
    pub key_path: KeyPath,
    pub action_id: String,
    pub payload: Vec<u8>,
}

pub trait PreActionPlugin {
    /// Called before an action is executed and returns additional context that
    /// will be added to the response.
    fn pre_action_hook(&self, context: &PreActionPluginContext) -> Result<Vec<u8>, PreActionPluginError>;
}

} // verus!
