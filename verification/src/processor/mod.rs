use crate::context_provider::wasm_context_provider::WasmContextProviderError;
use crate::id_manager::{IdentityManager, User};
use crate::KeyPath;
use vstd::prelude::*;

verus! {

#[derive(Debug)]
pub enum PreProcessorError {
    WasmPreProcessorError { source: WasmContextProviderError },
}

impl From<WasmContextProviderError> for PreProcessorError {
    fn from(source: WasmContextProviderError) -> (r: Self) {
        PreProcessorError::WasmPreProcessorError { source }
    }
}

impl vstd::std_specs::convert::FromSpecImpl<WasmContextProviderError> for PreProcessorError {
    open spec fn obeys_from_spec() -> bool {
        true
    }

    open spec fn from_spec(v: WasmContextProviderError) -> PreProcessorError {
        PreProcessorError::WasmPreProcessorError { source: v }
    }
}

/// What a pre-processor is shown of a request.
pub struct PreProcessorContext<IM: IdentityManager> {
    pub user: User<IM>,
    pub key_path: KeyPath,
    pub action_id: String,
    pub payload: Vec<u8>,
}

/// The bytes of a pre-processor's answer, or its error.
pub open spec fn processed_view(r: Result<Vec<u8>, PreProcessorError>) -> Result<Seq<u8>, PreProcessorError> {
    match r {
        Ok(v) => Ok(v@),
        Err(e) => Err(e),
    }
}

pub trait PreProcessor<IM: IdentityManager> {
    /// What the pre-processor may answer for a context with this user id, key
    /// path, action id and payload.
    spec fn pre_process_meets(
        &self,
        user_id: Seq<char>,
        key_path: Seq<char>,
        action_id: Seq<char>,
        payload: Seq<u8>,
        answer: Result<Seq<u8>, PreProcessorError>,
    ) -> bool;

    /// Pre-process processes the given context and returns JSON bytes that
    /// will be returned alongside other pre-processor results.
    fn pre_process(&self, context: &PreProcessorContext<IM>) -> (r: Result<Vec<u8>, PreProcessorError>)
        ensures
            self.pre_process_meets(
                context.user.spec_id(),
                context.key_path@,
                context.action_id@,
                context.payload@,
                processed_view(r),
            ),
    ;
}

} // verus!
