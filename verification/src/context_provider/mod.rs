use crate::context_provider::wasm_context_provider::WasmContextProviderError;
use crate::user::User;
use crate::KeyPath;
use std::sync::Arc;
use vstd::prelude::*;

pub mod wasm_context_provider;

verus! {

#[derive(Debug)]
pub enum ContextProviderError {
    WasmContextProviderError { source: WasmContextProviderError },
}

impl From<WasmContextProviderError> for ContextProviderError {
    fn from(source: WasmContextProviderError) -> (r: Self) {
        ContextProviderError::WasmContextProviderError { source }
    }
}

impl vstd::std_specs::convert::FromSpecImpl<WasmContextProviderError> for ContextProviderError {
    open spec fn obeys_from_spec() -> bool {
        true
    }

    open spec fn from_spec(v: WasmContextProviderError) -> ContextProviderError {
        ContextProviderError::WasmContextProviderError { source: v }
    }
}

/// What a context provider is shown of a request.
pub struct ContextProviderContext {
    pub user: Arc<dyn User>,
    pub key_path: KeyPath,
    pub action_id: String,
    pub payload: Vec<u8>,
}

pub trait ContextProvider {
    /// Called before an action is executed and returns additional context that
    /// will be added to the response.
    fn pre_action_hook(&self, context: &ContextProviderContext) -> Result<Vec<u8>, ContextProviderError>;
}

} // verus!
