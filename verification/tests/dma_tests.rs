use hwcrypto_hal::errors::HalError;
use hwcrypto_hal::operations::HwCryptoKeySymmetricOperations;
use hwcrypto_hal::session::Direction;
use hwcrypto_hal::session::DmaBufferSet;
use hwcrypto_hal::session::DmaRegion;
use hwcrypto_hal::session::FinishOutcome;
use hwcrypto_hal::session::KeyMaterial;
use hwcrypto_hal::session::OperationParameters;
use hwcrypto_hal::session::SessionState;
use hwcrypto_hal::session::SymmetricAlgorithm;
use hwcrypto_hal::session::UpdateOutcome;
use hwcrypto_hal::session::WaitOutcome;
use hwcrypto_hal::dma_emitting::SymmetricDmaEmittingOperation;

fn ctr_key() -> KeyMaterial {
    KeyMaterial { algorithm: SymmetricAlgorithm::AesCtr, handle: 5 }
}

fn ctr_params() -> OperationParameters {
    OperationParameters { algorithm: SymmetricAlgorithm::AesCtr, direction: Direction::Decrypt }
}

fn buffers() -> DmaBufferSet {
    DmaBufferSet {
        input: DmaRegion { address: 0x8000, length: 4096 },
        output: DmaRegion { address: 0x9000, length: 4096 },
        auth_data: DmaRegion { address: 0, length: 0 },
    }
}

#[test]
fn dma_begin_then_abort_invalidates_the_handle() {
    // begin_dma binds the buffers; abort releases the binding without
    // finish, and polling the torn-down handle fails rather than returning
    // stale state.
    let service = HwCryptoKeySymmetricOperations::new_operation().unwrap();
    let mut operation = service.begin_dma(&ctr_key(), &ctr_params(), &buffers()).unwrap();
    assert_eq!(operation.is_busy(), Ok(false));
    assert_eq!(operation.abort(), Ok(()));
    assert_eq!(operation.is_busy(), Err(HalError::IllegalStateTransition));
    assert_eq!(operation.abort(), Err(HalError::IllegalStateTransition));
}

#[test]
fn dma_new_operation_rejects_aead_key() {
    let key = KeyMaterial { algorithm: SymmetricAlgorithm::AesGcm, handle: 6 };
    let parameters =
        OperationParameters { algorithm: SymmetricAlgorithm::AesGcm, direction: Direction::Encrypt };
    let result = SymmetricDmaEmittingOperation::new_operation(&key, &parameters, &buffers());
    assert_eq!(result.map(|_| ()), Err(HalError::InvalidParameters));
}

#[test]
fn dma_new_operation_rejects_empty_input_region() {
    let mut bad = buffers();
    bad.input.length = 0;
    let result = SymmetricDmaEmittingOperation::new_operation(&ctr_key(), &ctr_params(), &bad);
    assert_eq!(result.map(|_| ()), Err(HalError::InvalidParameters));
}

#[test]
fn dma_update_and_finish_move_no_data_through_the_calls() {
    let mut operation =
        SymmetricDmaEmittingOperation::new_operation(&ctr_key(), &ctr_params(), &buffers())
            .unwrap();
    assert_eq!(operation.update(UpdateOutcome::Emitted(Vec::new())), Ok(()));
    assert_eq!(operation.update(UpdateOutcome::Pending), Ok(()));
    assert_eq!(operation.is_busy(), Ok(true));
    assert_eq!(
        operation.wait_for_completion(WaitOutcome::WorkCompleted),
        Ok(SessionState::Active)
    );
    assert_eq!(operation.finish(FinishOutcome::Finished(Vec::new())), Ok(()));
    assert_eq!(operation.is_busy(), Err(HalError::IllegalStateTransition));
}

#[test]
fn dma_transport_failure_while_busy_fails_the_operation() {
    let mut operation =
        SymmetricDmaEmittingOperation::new_operation(&ctr_key(), &ctr_params(), &buffers())
            .unwrap();
    operation.update(UpdateOutcome::Pending).unwrap();
    let waited = operation.wait_for_completion(WaitOutcome::TransportFailure);
    assert_eq!(waited, Err(HalError::TransportFailure));
    assert_eq!(operation.is_busy(), Err(HalError::IllegalStateTransition));
}
