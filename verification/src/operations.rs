use vstd::prelude::*;

use crate::dma_emitting::SymmetricDmaEmittingOperation;
use crate::errors::HalError;
use crate::session::DmaBufferSet;
use crate::session::KeyMaterial;
use crate::session::OperationParameters;
use crate::session::Session;
use crate::session::SessionState;
use crate::session::SessionVariant;
use crate::session::valid_session_inputs;

verus! {

/// The symmetric-cryptography service object: the entry point through which
/// callers open operation sessions in any of the four variants.
pub struct HwCryptoKeySymmetricOperations;

impl HwCryptoKeySymmetricOperations {
    /// Creates the service object the host process exposes to its callers.
    pub fn new_operation() -> (r: Result<HwCryptoKeySymmetricOperations, HalError>)
        ensures
            r is Ok,
    {
        Ok(HwCryptoKeySymmetricOperations)
    }

    /// Opens a plain emitting session: output streams back through each
    /// `update`.  On valid inputs the session starts in `Active`; on invalid
    /// inputs no session is created and the error is `InvalidParameters`.
    pub fn begin(&self, key: &KeyMaterial, parameters: &OperationParameters) -> (r: Result<
        Session,
        HalError,
    >)
        ensures
            r is Ok <==> valid_session_inputs(SessionVariant::Emitting, *key, *parameters, None),
            r is Ok ==> r.unwrap()@.variant == SessionVariant::Emitting && r.unwrap()@.state
                == SessionState::Active && r.unwrap()@.key == *key && r.unwrap()@.parameters
                == *parameters && r.unwrap()@.dma_buffers is None && r.unwrap()@.wf(),
            r is Err ==> r == Err::<Session, HalError>(HalError::InvalidParameters),
    {
        Session::begin(SessionVariant::Emitting, key, parameters, None)
    }

    /// Opens an AEAD session: like `begin`, but the operation additionally
    /// accepts authenticated data and emits an authentication tag on finish.
    pub fn begin_aead(&self, key: &KeyMaterial, parameters: &OperationParameters) -> (r: Result<
        Session,
        HalError,
    >)
        ensures
            r is Ok <==> valid_session_inputs(SessionVariant::Aead, *key, *parameters, None),
            r is Ok ==> r.unwrap()@.variant == SessionVariant::Aead && r.unwrap()@.state
                == SessionState::Active && r.unwrap()@.key == *key && r.unwrap()@.parameters
                == *parameters && r.unwrap()@.dma_buffers is None && r.unwrap()@.wf(),
            r is Err ==> r == Err::<Session, HalError>(HalError::InvalidParameters),
    {
        Session::begin(SessionVariant::Aead, key, parameters, None)
    }

    /// Opens a DMA emitting session: the operation binds the caller's
    /// buffers for its whole life and works on them in place instead of
    /// moving data through the calls.
    pub fn begin_dma(
        &self,
        key: &KeyMaterial,
        parameters: &OperationParameters,
        dma_buffers: &DmaBufferSet,
    ) -> (r: Result<SymmetricDmaEmittingOperation, HalError>)
        ensures
            r is Ok <==> valid_session_inputs(
                SessionVariant::DmaEmitting,
                *key,
                *parameters,
                Some(*dma_buffers),
            ),
            r is Ok ==> r.unwrap()@.variant == SessionVariant::DmaEmitting && r.unwrap()@.state
                == SessionState::Active && r.unwrap()@.key == *key && r.unwrap()@.parameters
                == *parameters && r.unwrap()@.dma_buffers == Some(*dma_buffers)
                && r.unwrap()@.wf(),
            r is Err ==> r == Err::<SymmetricDmaEmittingOperation, HalError>(
                HalError::InvalidParameters,
            ),
    {
        SymmetricDmaEmittingOperation::new_operation(key, parameters, dma_buffers)
    }

    /// Opens a DMA AEAD session: in-place operation on bound buffers, with
    /// an authentication tag emitted on finish.
    pub fn begin_dma_aead(
        &self,
        key: &KeyMaterial,
        parameters: &OperationParameters,
        dma_buffers: &DmaBufferSet,
    ) -> (r: Result<Session, HalError>)
        ensures
            r is Ok <==> valid_session_inputs(
                SessionVariant::DmaAead,
                *key,
                *parameters,
                Some(*dma_buffers),
            ),
            r is Ok ==> r.unwrap()@.variant == SessionVariant::DmaAead && r.unwrap()@.state
                == SessionState::Active && r.unwrap()@.key == *key && r.unwrap()@.parameters
                == *parameters && r.unwrap()@.dma_buffers == Some(*dma_buffers)
                && r.unwrap()@.wf(),
            r is Err ==> r == Err::<Session, HalError>(HalError::InvalidParameters),
    {
        Session::begin(SessionVariant::DmaAead, key, parameters, Some(*dma_buffers))
    }
}

} // verus!
