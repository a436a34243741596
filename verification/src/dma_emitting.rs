use vstd::prelude::*;

use crate::errors::HalError;
use crate::session::DmaBufferSet;
use crate::session::FinishOutcome;
use crate::session::KeyMaterial;
use crate::session::OperationParameters;
use crate::session::Session;
use crate::session::SessionState;
use crate::session::SessionVariant;
use crate::session::SessionView;
use crate::session::UpdateOutcome;
use crate::session::WaitOutcome;
use crate::session::valid_session_inputs;

verus! {

/// A DMA emitting operation as the service hands it out: a session fixed to
/// the `DmaEmitting` variant, operating in place on the caller's bound
/// buffers, so no data moves through the calls themselves.
pub struct SymmetricDmaEmittingOperation {
    session: Session,
}

impl View for SymmetricDmaEmittingOperation {
    type V = SessionView;

    closed spec fn view(&self) -> SessionView {
        self.session@
    }
}

impl SymmetricDmaEmittingOperation {
    /// Starts a DMA emitting session over the caller's key, parameters and
    /// buffer binding.  Validation happens before any channel exchange: on
    /// valid inputs the operation exists and is `Active`, on invalid inputs
    /// nothing is created and the error is `InvalidParameters`.
    pub fn new_operation(
        key: &KeyMaterial,
        parameters: &OperationParameters,
        dma_buffers: &DmaBufferSet,
    ) -> (r: Result<SymmetricDmaEmittingOperation, HalError>)
        ensures
            r is Ok <==> valid_session_inputs(
                SessionVariant::DmaEmitting,
                *key,
                *parameters,
                Some(*dma_buffers),
            ),
            r is Ok ==> r.unwrap()@ == (SessionView {
                variant: SessionVariant::DmaEmitting,
                state: SessionState::Active,
                key: *key,
                parameters: *parameters,
                dma_buffers: Some(*dma_buffers),
            }) && r.unwrap()@.wf(),
            r is Err ==> r == Err::<SymmetricDmaEmittingOperation, HalError>(
                HalError::InvalidParameters,
            ),
    {
        match Session::begin(SessionVariant::DmaEmitting, key, parameters, Some(*dma_buffers)) {
            Ok(session) => Ok(SymmetricDmaEmittingOperation { session }),
            Err(e) => Err(e),
        }
    }

    /// Advances in-place processing of the bound buffers by one step;
    /// `outcome` is what the exchange with the trusted application produced.
    /// Legal only in `Active`; outstanding work moves the operation to
    /// `Busy`, a transport failure to `Failed` with the binding released.
    pub fn update(&mut self, outcome: UpdateOutcome) -> (r: Result<(), HalError>)
        ensures
            final(self)@.same_identity(old(self)@),
            old(self)@.wf() ==> final(self)@.wf(),
            !(old(self)@.state is Active) ==> final(self)@ == old(self)@ && r == Err::<
                (),
                HalError,
            >(HalError::IllegalStateTransition),
            old(self)@.state is Active ==> match outcome {
                UpdateOutcome::Emitted(_) => final(self)@ == old(self)@ && r is Ok,
                UpdateOutcome::Pending => final(self)@ == (SessionView {
                    state: SessionState::Busy,
                    ..old(self)@
                }) && r is Ok,
                UpdateOutcome::TransportFailure => final(self)@ == (SessionView {
                    state: SessionState::Failed,
                    dma_buffers: None,
                    ..old(self)@
                }) && r == Err::<(), HalError>(HalError::TransportFailure),
            },
    {
        let input: Vec<u8> = Vec::new();
        match self.session.update(&input, outcome) {
            Ok(_) => Ok(()),
            Err(e) => Err(e),
        }
    }

    /// Non-blocking poll: true exactly when the operation is `Busy`; fails
    /// on an already torn-down operation rather than reporting stale state.
    pub fn is_busy(&self) -> (r: Result<bool, HalError>)
        ensures
            self@.state.spec_is_terminal() ==> r == Err::<bool, HalError>(
                HalError::IllegalStateTransition,
            ),
            !self@.state.spec_is_terminal() ==> r == Ok::<bool, HalError>(self@.state is Busy),
    {
        self.session.is_busy()
    }

    /// Blocks until outstanding work settles; never leaves the operation
    /// `Busy`.  A concurrent `abort` makes a pending wait return promptly
    /// with the aborted state.
    pub fn wait_for_completion(&mut self, outcome: WaitOutcome) -> (r: Result<
        SessionState,
        HalError,
    >)
        ensures
            final(self)@.same_identity(old(self)@),
            old(self)@.wf() ==> final(self)@.wf(),
            !(final(self)@.state is Busy),
            old(self)@.state.spec_is_terminal() ==> final(self)@ == old(self)@ && r == Err::<
                SessionState,
                HalError,
            >(HalError::IllegalStateTransition),
            old(self)@.state is Active ==> final(self)@ == old(self)@ && r == Ok::<
                SessionState,
                HalError,
            >(SessionState::Active),
            old(self)@.state is Busy ==> match outcome {
                WaitOutcome::WorkCompleted => final(self)@ == (SessionView {
                    state: SessionState::Active,
                    ..old(self)@
                }) && r == Ok::<SessionState, HalError>(SessionState::Active),
                WaitOutcome::Aborted => final(self)@ == (SessionView {
                    state: SessionState::Aborted,
                    dma_buffers: None,
                    ..old(self)@
                }) && r == Ok::<SessionState, HalError>(SessionState::Aborted),
                WaitOutcome::TransportFailure => final(self)@ == (SessionView {
                    state: SessionState::Failed,
                    dma_buffers: None,
                    ..old(self)@
                }) && r == Err::<SessionState, HalError>(HalError::TransportFailure),
            },
    {
        self.session.wait_for_completion(outcome)
    }

    /// Finalizes the operation.  The emitted data already stands in the
    /// bound output buffer, so no payload comes back through the call; the
    /// binding is released.  Legal only in `Active` — not while `Busy`.
    pub fn finish(&mut self, outcome: FinishOutcome) -> (r: Result<(), HalError>)
        ensures
            final(self)@.same_identity(old(self)@),
            old(self)@.wf() ==> final(self)@.wf(),
            !(old(self)@.state is Active) ==> final(self)@ == old(self)@ && r == Err::<
                (),
                HalError,
            >(HalError::IllegalStateTransition),
            old(self)@.state is Active ==> match outcome {
                FinishOutcome::Finished(_) => final(self)@ == (SessionView {
                    state: SessionState::Completed,
                    dma_buffers: None,
                    ..old(self)@
                }) && r is Ok,
                FinishOutcome::TransportFailure => final(self)@ == (SessionView {
                    state: SessionState::Failed,
                    dma_buffers: None,
                    ..old(self)@
                }) && r == Err::<(), HalError>(HalError::TransportFailure),
            },
    {
        match self.session.finish(outcome) {
            Ok(_) => Ok(()),
            Err(e) => Err(e),
        }
    }

    /// Tears the operation down, releasing the buffer binding immediately
    /// and discarding partial results.  Legal in every non-terminal state.
    pub fn abort(&mut self) -> (r: Result<(), HalError>)
        ensures
            final(self)@.same_identity(old(self)@),
            old(self)@.wf() ==> final(self)@.wf(),
            old(self)@.state.spec_is_terminal() ==> final(self)@ == old(self)@ && r == Err::<
                (),
                HalError,
            >(HalError::IllegalStateTransition),
            !old(self)@.state.spec_is_terminal() ==> final(self)@ == (SessionView {
                state: SessionState::Aborted,
                dma_buffers: None,
                ..old(self)@
            }) && r is Ok,
    {
        self.session.abort()
    }
}

} // verus!
