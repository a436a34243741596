use vstd::prelude::*;

use crate::errors::HalError;

verus! {

/// The symmetric algorithms the trusted application offers.
#[derive(Clone, Copy, Debug, PartialEq, Eq, Structural)]
pub enum SymmetricAlgorithm {
    AesCbc,
    AesCtr,
    AesGcm,
}

impl SymmetricAlgorithm {
    /// Whether the algorithm authenticates its output, and so belongs to the
    /// AEAD session variants.
    pub open spec fn spec_is_aead(self) -> bool {
        self is AesGcm
    }

    pub fn is_aead(&self) -> (r: bool)
        ensures
            r == self.spec_is_aead(),
    {
        matches!(self, SymmetricAlgorithm::AesGcm)
    }
}

/// Whether an operation encrypts or decrypts.
#[derive(Clone, Copy, Debug, PartialEq, Eq, Structural)]
pub enum Direction {
    Encrypt,
    Decrypt,
}

/// A caller-supplied reference to key material held by the trusted
/// application.  The core never creates or persists it; ownership stays with
/// the caller and the trusted application.
#[derive(Clone, Copy, Debug, PartialEq, Eq, Structural)]
pub struct KeyMaterial {
    /// The algorithm the key was cut for.
    pub algorithm: SymmetricAlgorithm,
    /// The opaque descriptor the trusted application knows the key by.
    pub handle: u64,
}

/// Parameters of one cryptographic operation; immutable once a session has
/// begun.
#[derive(Clone, Copy, Debug, PartialEq, Eq, Structural)]
pub struct OperationParameters {
    pub algorithm: SymmetricAlgorithm,
    pub direction: Direction,
}

/// One caller-supplied zero-copy memory region, referenced — never copied —
/// by a DMA session.
#[derive(Clone, Copy, Debug, PartialEq, Eq, Structural)]
pub struct DmaRegion {
    /// The device address of the region.
    pub address: u64,
    /// The region's length in bytes.
    pub length: usize,
}

/// The fixed buffer binding of a DMA session: input, output and
/// additional-authenticated-data regions.  Once bound at `begin` it is never
/// rebound or resized for the session's lifetime.
#[derive(Clone, Copy, Debug, PartialEq, Eq, Structural)]
pub struct DmaBufferSet {
    pub input: DmaRegion,
    pub output: DmaRegion,
    pub auth_data: DmaRegion,
}

/// A usable buffer binding carries a non-empty input and a non-empty output
/// region; the additional-data region may be empty.
pub open spec fn valid_dma_buffers(buffers: DmaBufferSet) -> bool {
    buffers.input.length > 0 && buffers.output.length > 0
}

/// The four session variants.  They differ in the data they carry — a tag on
/// finish for the AEAD variants, a buffer binding for the DMA variants — not
/// in the shape of the state machine.
#[derive(Clone, Copy, Debug, PartialEq, Eq, Structural)]
pub enum SessionVariant {
    /// Streams output back through each call.
    Emitting,
    /// Streams output and authenticates it with a tag on finish.
    Aead,
    /// Operates in place on bound buffers.
    DmaEmitting,
    /// Operates in place on bound buffers and authenticates with a tag.
    DmaAead,
}

impl SessionVariant {
    pub open spec fn spec_is_aead(self) -> bool {
        self is Aead || self is DmaAead
    }

    pub open spec fn spec_is_dma(self) -> bool {
        self is DmaEmitting || self is DmaAead
    }
}

/// The state of one session.  `Active` and `Busy` are live; the other three
/// are terminal: every operation but none at all is rejected there.
#[derive(Clone, Copy, Debug, PartialEq, Eq, Structural)]
pub enum SessionState {
    /// Ready for more work.
    Active,
    /// Work is outstanding in the trusted application.
    Busy,
    /// Finished successfully; terminal.
    Completed,
    /// Torn down by the caller; terminal.
    Aborted,
    /// Lost to a transport failure; terminal.
    Failed,
}

impl SessionState {
    pub open spec fn spec_is_terminal(self) -> bool {
        self is Completed || self is Aborted || self is Failed
    }

    pub fn is_terminal(&self) -> (r: bool)
        ensures
            r == self.spec_is_terminal(),
    {
        matches!(
            self,
            SessionState::Completed | SessionState::Aborted | SessionState::Failed
        )
    }
}

/// The state diagram of a session: it stays where it is, moves between
/// `Active` and `Busy`, or leaves a live state for a terminal one.  Terminal
/// states are never left.
pub open spec fn legal_transition(pre: SessionState, post: SessionState) -> bool {
    ||| pre == post
    ||| (pre is Active && (post is Busy || post is Completed || post is Aborted || post is Failed))
    ||| (pre is Busy && (post is Active || post is Aborted || post is Failed))
}

/// Terminal states are absorbing: once a session is completed, aborted or
/// failed, no legal transition leaves that state — the session is out of
/// reach for good.
pub proof fn lemma_terminal_states_are_absorbing(pre: SessionState, post: SessionState)
    requires
        pre.spec_is_terminal(),
        legal_transition(pre, post),
    ensures
        post == pre,
{
}

/// Valid inputs for `begin`: the parameters name the key's own algorithm,
/// the algorithm's authentication matches the variant, and the variant and
/// the buffer binding come together — DMA variants bind valid buffers, the
/// others bind none.
pub open spec fn valid_session_inputs(
    variant: SessionVariant,
    key: KeyMaterial,
    parameters: OperationParameters,
    dma_buffers: Option<DmaBufferSet>,
) -> bool {
    &&& parameters.algorithm == key.algorithm
    &&& parameters.algorithm.spec_is_aead() == variant.spec_is_aead()
    &&& variant.spec_is_dma() ==> dma_buffers is Some && valid_dma_buffers(dma_buffers.unwrap())
    &&& !variant.spec_is_dma() ==> dma_buffers is None
}

/// The abstract value of a session: what the contracts speak of.
pub struct SessionView {
    pub variant: SessionVariant,
    pub state: SessionState,
    pub key: KeyMaterial,
    pub parameters: OperationParameters,
    pub dma_buffers: Option<DmaBufferSet>,
}

impl SessionView {
    /// The session invariant: variant, key and parameters were valid at
    /// `begin` and never change; a DMA session holds its buffer binding
    /// exactly while it is live and releases it on every terminal
    /// transition.
    pub open spec fn wf(self) -> bool {
        &&& self.parameters.algorithm == self.key.algorithm
        &&& self.parameters.algorithm.spec_is_aead() == self.variant.spec_is_aead()
        &&& !self.variant.spec_is_dma() ==> self.dma_buffers is None
        &&& self.variant.spec_is_dma() ==> (self.dma_buffers is Some <==> !self.state.spec_is_terminal())
        &&& self.dma_buffers is Some ==> valid_dma_buffers(self.dma_buffers.unwrap())
    }

    /// Everything a session keeps fixed for its whole life.
    pub open spec fn same_identity(self, other: SessionView) -> bool {
        self.variant == other.variant && self.key == other.key && self.parameters
            == other.parameters
    }
}

/// What one exchange with the trusted application produced for an `update`:
/// bytes emitted so far, a notice that work is still outstanding, or a
/// transport failure.
pub enum UpdateOutcome {
    Emitted(Vec<u8>),
    Pending,
    TransportFailure,
}

/// What the final exchange of a `finish` produced: the final payload — for
/// AEAD variants the authentication tag rides at its end — or a transport
/// failure.
pub enum FinishOutcome {
    Finished(Vec<u8>),
    TransportFailure,
}

/// How a blocking wait ended: the outstanding work completed, the transport
/// failed underneath it, or a concurrent `abort` tore the session down.
pub enum WaitOutcome {
    WorkCompleted,
    TransportFailure,
    Aborted,
}

/// One in-progress symmetric cryptographic operation.  Created in `Active`
/// by a successful `begin`; destroyed by `finish`, `abort` or an
/// unrecoverable failure, after which every operation is rejected with
/// `IllegalStateTransition`.
pub struct Session {
    variant: SessionVariant,
    state: SessionState,
    key: KeyMaterial,
    parameters: OperationParameters,
    dma_buffers: Option<DmaBufferSet>,
}

impl View for Session {
    type V = SessionView;

    closed spec fn view(&self) -> SessionView {
        SessionView {
            variant: self.variant,
            state: self.state,
            key: self.key,
            parameters: self.parameters,
            dma_buffers: self.dma_buffers,
        }
    }
}

impl Session {
    /// Starts a session of the given variant.  The key, the parameters and
    /// the buffer binding are validated before any channel exchange: on
    /// valid inputs the session exists and is `Active`; on invalid inputs no
    /// session is created and the error is `InvalidParameters` — if and only
    /// if.
    pub fn begin(
        variant: SessionVariant,
        key: &KeyMaterial,
        parameters: &OperationParameters,
        dma_buffers: Option<DmaBufferSet>,
    ) -> (r: Result<Session, HalError>)
        ensures
            r is Ok <==> valid_session_inputs(variant, *key, *parameters, dma_buffers),
            r is Ok ==> r.unwrap()@ == (SessionView {
                variant,
                state: SessionState::Active,
                key: *key,
                parameters: *parameters,
                dma_buffers,
            }) && r.unwrap()@.wf(),
            r is Err ==> r == Err::<Session, HalError>(HalError::InvalidParameters),
    {
        let key_algorithm_matches = matches!(
            (parameters.algorithm, key.algorithm),
            (SymmetricAlgorithm::AesCbc, SymmetricAlgorithm::AesCbc)
            | (SymmetricAlgorithm::AesCtr, SymmetricAlgorithm::AesCtr)
            | (SymmetricAlgorithm::AesGcm, SymmetricAlgorithm::AesGcm)
        );
        let variant_is_aead = matches!(variant, SessionVariant::Aead | SessionVariant::DmaAead);
        let variant_is_dma = matches!(
            variant,
            SessionVariant::DmaEmitting | SessionVariant::DmaAead
        );
        let buffers_match = match &dma_buffers {
            Some(buffers) => variant_is_dma && buffers.input.length > 0 && buffers.output.length
                > 0,
            None => !variant_is_dma,
        };
        if key_algorithm_matches && parameters.algorithm.is_aead() == variant_is_aead
            && buffers_match {
            Ok(
                Session {
                    variant,
                    state: SessionState::Active,
                    key: *key,
                    parameters: *parameters,
                    dma_buffers,
                },
            )
        } else {
            Err(HalError::InvalidParameters)
        }
    }

    /// Submits one chunk of input for processing.  `input` travels to the
    /// trusted application unread; `outcome` is what the exchange produced.
    /// Legal only in `Active`: anywhere else the call fails with
    /// `IllegalStateTransition` and changes nothing.  Emitted bytes keep the
    /// session `Active`; outstanding work moves it to `Busy`; a transport
    /// failure moves it to `Failed` and releases the buffer binding.
    pub fn update(&mut self, input: &Vec<u8>, outcome: UpdateOutcome) -> (r: Result<
        Vec<u8>,
        HalError,
    >)
        ensures
            final(self)@.same_identity(old(self)@),
            old(self)@.wf() ==> final(self)@.wf(),
            legal_transition(old(self)@.state, final(self)@.state),
            !(old(self)@.state is Active) ==> final(self)@ == old(self)@ && r == Err::<
                Vec<u8>,
                HalError,
            >(HalError::IllegalStateTransition),
            old(self)@.state is Active ==> match outcome {
                UpdateOutcome::Emitted(bytes) => final(self)@ == old(self)@ && r is Ok
                    && r.unwrap()@ == bytes@,
                UpdateOutcome::Pending => final(self)@ == (SessionView {
                    state: SessionState::Busy,
                    ..old(self)@
                }) && r is Ok && r.unwrap()@ == Seq::<u8>::empty(),
                UpdateOutcome::TransportFailure => final(self)@ == (SessionView {
                    state: SessionState::Failed,
                    dma_buffers: None,
                    ..old(self)@
                }) && r == Err::<Vec<u8>, HalError>(HalError::TransportFailure),
            },
    {
        let _ = input;
        if !matches!(self.state, SessionState::Active) {
            return Err(HalError::IllegalStateTransition);
        }
        match outcome {
            UpdateOutcome::Emitted(bytes) => Ok(bytes),
            UpdateOutcome::Pending => {
                self.state = SessionState::Busy;
                Ok(Vec::new())
            },
            UpdateOutcome::TransportFailure => {
                self.state = SessionState::Failed;
                self.dma_buffers = None;
                Err(HalError::TransportFailure)
            },
        }
    }

    /// Non-blocking poll: true exactly when the session is `Busy`.  On a
    /// terminal session — one already finished, aborted or failed — the
    /// handle is invalid and the call fails rather than reporting stale
    /// state.
    pub fn is_busy(&self) -> (r: Result<bool, HalError>)
        ensures
            self@.state.spec_is_terminal() ==> r == Err::<bool, HalError>(
                HalError::IllegalStateTransition,
            ),
            !self@.state.spec_is_terminal() ==> r == Ok::<bool, HalError>(self@.state is Busy),
    {
        if self.state.is_terminal() {
            Err(HalError::IllegalStateTransition)
        } else {
            Ok(matches!(self.state, SessionState::Busy))
        }
    }

    /// Blocks until outstanding work settles; `outcome` is how the wait
    /// ended.  In `Active` it returns at once.  From `Busy` the session
    /// leaves for `Active`, for `Failed` on a transport failure, or — when a
    /// concurrent `abort` tore the session down — for `Aborted`; it is never
    /// still `Busy` when the call returns.  On a terminal session the call
    /// fails with `IllegalStateTransition`.
    pub fn wait_for_completion(&mut self, outcome: WaitOutcome) -> (r: Result<
        SessionState,
        HalError,
    >)
        ensures
            final(self)@.same_identity(old(self)@),
            old(self)@.wf() ==> final(self)@.wf(),
            legal_transition(old(self)@.state, final(self)@.state),
            !(final(self)@.state is Busy),
            old(self)@.state.spec_is_terminal() ==> final(self)@ == old(self)@ && r == Err::<
                SessionState,
                HalError,
            >(HalError::IllegalStateTransition),
            old(self)@.state is Active ==> final(self)@ == old(self)@ && r == Ok::<
                SessionState,
                HalError,
            >(SessionState::Active),
            old(self)@.state is Busy ==> match outcome {
                WaitOutcome::WorkCompleted => final(self)@ == (SessionView {
                    state: SessionState::Active,
                    ..old(self)@
                }) && r == Ok::<SessionState, HalError>(SessionState::Active),
                WaitOutcome::Aborted => final(self)@ == (SessionView {
                    state: SessionState::Aborted,
                    dma_buffers: None,
                    ..old(self)@
                }) && r == Ok::<SessionState, HalError>(SessionState::Aborted),
                WaitOutcome::TransportFailure => final(self)@ == (SessionView {
                    state: SessionState::Failed,
                    dma_buffers: None,
                    ..old(self)@
                }) && r == Err::<SessionState, HalError>(HalError::TransportFailure),
            },
    {
        if self.state.is_terminal() {
            return Err(HalError::IllegalStateTransition);
        }
        if matches!(self.state, SessionState::Active) {
            return Ok(SessionState::Active);
        }
        match outcome {
            WaitOutcome::WorkCompleted => {
                self.state = SessionState::Active;
                Ok(SessionState::Active)
            },
            WaitOutcome::Aborted => {
                self.state = SessionState::Aborted;
                self.dma_buffers = None;
                Ok(SessionState::Aborted)
            },
            WaitOutcome::TransportFailure => {
                self.state = SessionState::Failed;
                self.dma_buffers = None;
                Err(HalError::TransportFailure)
            },
        }
    }

    /// Finalizes the operation.  Legal only in `Active` — in particular not
    /// while `Busy` — anywhere else the call fails with
    /// `IllegalStateTransition` and changes nothing.  On success the final
    /// payload comes back, the session is `Completed` and the buffer binding
    /// is released; a transport failure moves it to `Failed` instead.
    pub fn finish(&mut self, outcome: FinishOutcome) -> (r: Result<Vec<u8>, HalError>)
        ensures
            final(self)@.same_identity(old(self)@),
            old(self)@.wf() ==> final(self)@.wf(),
            legal_transition(old(self)@.state, final(self)@.state),
            !(old(self)@.state is Active) ==> final(self)@ == old(self)@ && r == Err::<
                Vec<u8>,
                HalError,
            >(HalError::IllegalStateTransition),
            old(self)@.state is Active ==> match outcome {
                FinishOutcome::Finished(bytes) => final(self)@ == (SessionView {
                    state: SessionState::Completed,
                    dma_buffers: None,
                    ..old(self)@
                }) && r is Ok && r.unwrap()@ == bytes@,
                FinishOutcome::TransportFailure => final(self)@ == (SessionView {
                    state: SessionState::Failed,
                    dma_buffers: None,
                    ..old(self)@
                }) && r == Err::<Vec<u8>, HalError>(HalError::TransportFailure),
            },
    {
        if !matches!(self.state, SessionState::Active) {
            return Err(HalError::IllegalStateTransition);
        }
        match outcome {
            FinishOutcome::Finished(bytes) => {
                self.state = SessionState::Completed;
                self.dma_buffers = None;
                Ok(bytes)
            },
            FinishOutcome::TransportFailure => {
                self.state = SessionState::Failed;
                self.dma_buffers = None;
                Err(HalError::TransportFailure)
            },
        }
    }

    /// Tears the session down, discarding partial results and releasing all
    /// its resources — the buffer binding included — immediately.  Legal in
    /// every non-terminal state; on a terminal session the call fails with
    /// `IllegalStateTransition`.
    pub fn abort(&mut self) -> (r: Result<(), HalError>)
        ensures
            final(self)@.same_identity(old(self)@),
            old(self)@.wf() ==> final(self)@.wf(),
            legal_transition(old(self)@.state, final(self)@.state),
            old(self)@.state.spec_is_terminal() ==> final(self)@ == old(self)@ && r == Err::<
                (),
                HalError,
            >(HalError::IllegalStateTransition),
            !old(self)@.state.spec_is_terminal() ==> final(self)@ == (SessionView {
                state: SessionState::Aborted,
                dma_buffers: None,
                ..old(self)@
            }) && r is Ok,
    {
        if self.state.is_terminal() {
            return Err(HalError::IllegalStateTransition);
        }
        self.state = SessionState::Aborted;
        self.dma_buffers = None;
        Ok(())
    }
}

} // verus!
