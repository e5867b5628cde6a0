//! The executor: it turns sequencer blocks into blocks of the rollup chain by
//! asking the rollup's execution service to execute them, and keeps the
//! service's soft and firm commitments up to date.
//!
//! Blocks arrive from two sources. Blocks from the sequencer stream are
//! executed and become the soft commitment. Blocks read back from the data
//! availability layer are final: they become the firm commitment, executed
//! first where that has not happened yet.
//!
//! The executor does no I/O itself. [`Executor::step`] takes what happened
//! (a command, or the answer of the execution service) and returns what to do
//! next; the caller performs that request and hands its outcome back.
use vstd::prelude::*;

use crate::executed_blocks::ExecutedBlocks;
use crate::types::{
    copy_bytes, copy_opt_block, Block, BlockView, CommitmentState,
    CommitmentStateView, SequencerBlockSubset, SequencerBlockSubsetView, Timestamp,
};

verus! {

/// What the execution service is asked to execute: the transactions of one
/// sequencer block, on top of the block with hash `prev_block_hash`.
#[derive(Debug)]
pub struct ExecuteBlockRequest {
    pub prev_block_hash: Vec<u8>,
    pub transactions: Vec<Vec<u8>>,
    pub timestamp: Option<Timestamp>,
}

/// The mathematical value of an [`ExecuteBlockRequest`].
pub struct ExecuteBlockRequestView {
    pub prev_block_hash: Seq<u8>,
    pub transactions: Seq<Seq<u8>>,
    pub timestamp: Option<Timestamp>,
}

impl View for ExecuteBlockRequest {
    type V = ExecuteBlockRequestView;

    open spec fn view(&self) -> ExecuteBlockRequestView {
        ExecuteBlockRequestView {
            prev_block_hash: self.prev_block_hash@,
            transactions: self.transactions.deep_view(),
            timestamp: self.timestamp,
        }
    }
}

/// What [`Executor::execute_block`] decides for a sequencer block.
#[derive(Debug)]
pub enum ExecutionDecision {
    /// Empty blocks are not executed and this one has no transactions.
    SkippedEmptyBlock,
    /// The block was executed before; this is the execution block it gave.
    AlreadyExecuted(Block),
    /// There is no soft commitment to execute the block on top of.
    MissingSoftCommitment,
    /// The block is to be executed by the execution service.
    Execute(ExecuteBlockRequest),
}

/// The mathematical value of an [`ExecutionDecision`].
pub enum ExecutionDecisionView {
    SkippedEmptyBlock,
    AlreadyExecuted(BlockView),
    MissingSoftCommitment,
    Execute(ExecuteBlockRequestView),
}

impl View for ExecutionDecision {
    type V = ExecutionDecisionView;

    open spec fn view(&self) -> ExecutionDecisionView {
        match self {
            ExecutionDecision::SkippedEmptyBlock => ExecutionDecisionView::SkippedEmptyBlock,
            ExecutionDecision::AlreadyExecuted(b) => ExecutionDecisionView::AlreadyExecuted(b@),
            ExecutionDecision::MissingSoftCommitment => ExecutionDecisionView::MissingSoftCommitment,
            ExecutionDecision::Execute(r) => ExecutionDecisionView::Execute(r@),
        }
    }
}

/// What [`Executor::handle_block_received_from_data_availability`] decides
/// for a block read back from the data availability layer.
#[derive(Debug)]
pub enum FirmDecision {
    /// The block was executed before: its execution block becomes the firm
    /// commitment by this update of the commitment state.
    CommitExecuted(CommitmentState),
    /// The block was not executed before: the decision taken for executing it.
    Execution(ExecutionDecision),
}

/// The mathematical value of a [`FirmDecision`].
pub enum FirmDecisionView {
    CommitExecuted(CommitmentStateView),
    Execution(ExecutionDecisionView),
}

impl View for FirmDecision {
    type V = FirmDecisionView;

    open spec fn view(&self) -> FirmDecisionView {
        match self {
            FirmDecision::CommitExecuted(cs) => FirmDecisionView::CommitExecuted(cs@),
            FirmDecision::Execution(d) => FirmDecisionView::Execution(d@),
        }
    }
}

/// A command for the executor.
#[derive(Debug)]
pub enum ExecutorCommand {
    /// A block received from the sequencer stream.
    BlockReceivedFromSequencer { block: SequencerBlockSubset },
    /// A block read back from the data availability layer.
    BlockReceivedFromDataAvailability { block: SequencerBlockSubset },
    /// Stop the executor.
    Shutdown,
}

/// The mathematical value of an [`ExecutorCommand`].
pub enum ExecutorCommandView {
    BlockReceivedFromSequencer { block: SequencerBlockSubsetView },
    BlockReceivedFromDataAvailability { block: SequencerBlockSubsetView },
    Shutdown,
}

impl View for ExecutorCommand {
    type V = ExecutorCommandView;

    open spec fn view(&self) -> ExecutorCommandView {
        match self {
            ExecutorCommand::BlockReceivedFromSequencer { block } => {
                ExecutorCommandView::BlockReceivedFromSequencer { block: block@ }
            },
            ExecutorCommand::BlockReceivedFromDataAvailability { block } => {
                ExecutorCommandView::BlockReceivedFromDataAvailability { block: block@ }
            },
            ExecutorCommand::Shutdown => ExecutorCommandView::Shutdown,
        }
    }
}

/// What the executor is waiting for.
#[derive(Debug)]
pub enum Phase {
    /// The next command.
    Ready,
    /// The execution of a block from the sequencer stream.
    ExecutingSoft { sequencer_block_hash: Vec<u8> },
    /// The execution of a block from the data availability layer.
    ExecutingFirm { sequencer_block_hash: Vec<u8> },
    /// The update of the commitment state after a soft commitment.
    CommittingSoft,
    /// The update of the commitment state after a firm commitment of the
    /// execution block of `sequencer_block_hash`.
    CommittingFirm { sequencer_block_hash: Vec<u8> },
    /// Nothing: the executor has shut down.
    Stopped,
}

/// The mathematical value of a [`Phase`].
pub enum PhaseView {
    Ready,
    ExecutingSoft { sequencer_block_hash: Seq<u8> },
    ExecutingFirm { sequencer_block_hash: Seq<u8> },
    CommittingSoft,
    CommittingFirm { sequencer_block_hash: Seq<u8> },
    Stopped,
}

impl View for Phase {
    type V = PhaseView;

    open spec fn view(&self) -> PhaseView {
        match self {
            Phase::Ready => PhaseView::Ready,
            Phase::ExecutingSoft { sequencer_block_hash } => {
                PhaseView::ExecutingSoft { sequencer_block_hash: sequencer_block_hash@ }
            },
            Phase::ExecutingFirm { sequencer_block_hash } => {
                PhaseView::ExecutingFirm { sequencer_block_hash: sequencer_block_hash@ }
            },
            Phase::CommittingSoft => PhaseView::CommittingSoft,
            Phase::CommittingFirm { sequencer_block_hash } => {
                PhaseView::CommittingFirm { sequencer_block_hash: sequencer_block_hash@ }
            },
            Phase::Stopped => PhaseView::Stopped,
        }
    }
}

/// What happened, handed to [`Executor::step`].
#[derive(Debug)]
pub enum Event {
    /// A command arrived.
    Command(ExecutorCommand),
    /// The execution service executed the requested block.
    BlockExecuted(Block),
    /// The execution service updated its commitment state to this one.
    CommitmentStateUpdated(CommitmentState),
    /// The request to the execution service failed.
    RequestFailed,
}

/// The mathematical value of an [`Event`].
pub enum EventView {
    Command(ExecutorCommandView),
    BlockExecuted(BlockView),
    CommitmentStateUpdated(CommitmentStateView),
    RequestFailed,
}

impl View for Event {
    type V = EventView;

    open spec fn view(&self) -> EventView {
        match self {
            Event::Command(c) => EventView::Command(c@),
            Event::BlockExecuted(b) => EventView::BlockExecuted(b@),
            Event::CommitmentStateUpdated(cs) => EventView::CommitmentStateUpdated(cs@),
            Event::RequestFailed => EventView::RequestFailed,
        }
    }
}

/// What the caller of [`Executor::step`] is to do next.
#[derive(Debug)]
pub enum Action {
    /// Wait for the next command.
    AwaitCommand,
    /// Ask the execution service to execute a block.
    ExecuteBlock(ExecuteBlockRequest),
    /// Ask the execution service to take this commitment state.
    UpdateCommitmentState(CommitmentState),
    /// Stop: the executor has shut down.
    Stop,
}

/// The mathematical value of an [`Action`].
pub enum ActionView {
    AwaitCommand,
    ExecuteBlock(ExecuteBlockRequestView),
    UpdateCommitmentState(CommitmentStateView),
    Stop,
}

impl View for Action {
    type V = ActionView;

    open spec fn view(&self) -> ActionView {
        match self {
            Action::AwaitCommand => ActionView::AwaitCommand,
            Action::ExecuteBlock(r) => ActionView::ExecuteBlock(r@),
            Action::UpdateCommitmentState(cs) => ActionView::UpdateCommitmentState(cs@),
            Action::Stop => ActionView::Stop,
        }
    }
}

/// The state of an [`Executor`].
pub struct ExecutorView {
    /// The chain id of the rollup that the executor executes blocks for.
    pub chain_id: Seq<u8>,
    /// The soft and firm commitments of the execution chain, as last reported
    /// by the execution service.
    pub commitment_state: CommitmentStateView,
    /// For each sequencer block executed but not yet firmly committed, the
    /// execution block that executing it gave.
    pub executed_blocks: Map<Seq<u8>, BlockView>,
    /// Whether sequencer blocks without transactions are left unexecuted.
    pub disable_empty_block_execution: bool,
    /// What the executor waits for.
    pub phase: PhaseView,
}

/// The decision taken for executing `block` in state `s`.
pub open spec fn spec_execute_block(
    s: ExecutorView,
    block: SequencerBlockSubsetView,
) -> ExecutionDecisionView {
    if s.disable_empty_block_execution && block.rollup_transactions.len() == 0 {
        ExecutionDecisionView::SkippedEmptyBlock
    } else if s.executed_blocks.contains_key(block.block_hash) {
        ExecutionDecisionView::AlreadyExecuted(s.executed_blocks[block.block_hash])
    } else {
        match s.commitment_state.soft {
            None => ExecutionDecisionView::MissingSoftCommitment,
            Some(soft) => ExecutionDecisionView::Execute(
                ExecuteBlockRequestView {
                    prev_block_hash: soft.hash,
                    transactions: block.rollup_transactions,
                    timestamp: Some(block.time),
                },
            ),
        }
    }
}

/// The commitment state with both commitments at `block`.
pub open spec fn spec_update_commitments(block: BlockView) -> CommitmentStateView {
    CommitmentStateView { soft: Some(block), firm: Some(block) }
}

/// The commitment state `cs` with its firm commitment moved to `firm`.
pub open spec fn spec_update_firm_commitment(
    cs: CommitmentStateView,
    firm: BlockView,
) -> CommitmentStateView {
    CommitmentStateView { soft: cs.soft, firm: Some(firm) }
}

/// The commitment state `cs` with its soft commitment moved to `soft`.
pub open spec fn spec_update_soft_commitment(
    cs: CommitmentStateView,
    soft: BlockView,
) -> CommitmentStateView {
    CommitmentStateView { soft: Some(soft), firm: cs.firm }
}

/// The decision taken for a block from the data availability layer in state `s`.
pub open spec fn spec_handle_firm_block(
    s: ExecutorView,
    block: SequencerBlockSubsetView,
) -> FirmDecisionView {
    if s.executed_blocks.contains_key(block.block_hash) {
        FirmDecisionView::CommitExecuted(
            spec_update_firm_commitment(
                s.commitment_state,
                s.executed_blocks[block.block_hash],
            ),
        )
    } else {
        FirmDecisionView::Execution(spec_execute_block(s, block))
    }
}

/// `s` waiting for `phase`.
pub open spec fn with_phase(s: ExecutorView, phase: PhaseView) -> ExecutorView {
    ExecutorView { phase, ..s }
}

/// Whether the executor in phase `phase` takes `event`: a command when it is
/// ready, and otherwise the outcome of the request it waits for.
pub open spec fn spec_accepts(phase: PhaseView, event: EventView) -> bool {
    match phase {
        PhaseView::Ready => event is Command,
        PhaseView::ExecutingSoft { .. } | PhaseView::ExecutingFirm { .. } => {
            event is BlockExecuted || event is RequestFailed
        },
        PhaseView::CommittingSoft | PhaseView::CommittingFirm { .. } => {
            event is CommitmentStateUpdated || event is RequestFailed
        },
        PhaseView::Stopped => false,
    }
}

/// The state after `event` in state `s`, and what is to be done next.
pub open spec fn spec_step(s: ExecutorView, event: EventView) -> (ExecutorView, ActionView) {
    match event {
        EventView::Command(ExecutorCommandView::BlockReceivedFromSequencer { block }) => {
            match spec_execute_block(s, block) {
                ExecutionDecisionView::AlreadyExecuted(executed) => (
                    with_phase(s, PhaseView::CommittingSoft),
                    ActionView::UpdateCommitmentState(
                        spec_update_soft_commitment(s.commitment_state, executed),
                    ),
                ),
                ExecutionDecisionView::Execute(request) => (
                    with_phase(s, PhaseView::ExecutingSoft { sequencer_block_hash: block.block_hash }),
                    ActionView::ExecuteBlock(request),
                ),
                _ => (s, ActionView::AwaitCommand),
            }
        },
        EventView::Command(ExecutorCommandView::BlockReceivedFromDataAvailability { block }) => {
            match spec_handle_firm_block(s, block) {
                FirmDecisionView::CommitExecuted(request) => (
                    with_phase(s, PhaseView::CommittingFirm { sequencer_block_hash: block.block_hash }),
                    ActionView::UpdateCommitmentState(request),
                ),
                FirmDecisionView::Execution(ExecutionDecisionView::Execute(request)) => (
                    with_phase(s, PhaseView::ExecutingFirm { sequencer_block_hash: block.block_hash }),
                    ActionView::ExecuteBlock(request),
                ),
                _ => (s, ActionView::AwaitCommand),
            }
        },
        EventView::Command(ExecutorCommandView::Shutdown) => (
            with_phase(s, PhaseView::Stopped),
            ActionView::Stop,
        ),
        EventView::BlockExecuted(executed) => match s.phase {
            PhaseView::ExecutingSoft { sequencer_block_hash } => (
                ExecutorView {
                    executed_blocks: s.executed_blocks.insert(sequencer_block_hash, executed),
                    phase: PhaseView::CommittingSoft,
                    ..s
                },
                ActionView::UpdateCommitmentState(
                    spec_update_soft_commitment(s.commitment_state, executed),
                ),
            ),
            PhaseView::ExecutingFirm { sequencer_block_hash } => (
                ExecutorView {
                    executed_blocks: s.executed_blocks.insert(sequencer_block_hash, executed),
                    phase: PhaseView::CommittingFirm { sequencer_block_hash },
                    ..s
                },
                ActionView::UpdateCommitmentState(spec_update_commitments(executed)),
            ),
            _ => (s, ActionView::AwaitCommand),
        },
        EventView::CommitmentStateUpdated(cs) => match s.phase {
            PhaseView::CommittingFirm { sequencer_block_hash } => (
                ExecutorView {
                    commitment_state: cs,
                    executed_blocks: s.executed_blocks.remove(sequencer_block_hash),
                    phase: PhaseView::Ready,
                    ..s
                },
                ActionView::AwaitCommand,
            ),
            _ => (
                ExecutorView { commitment_state: cs, phase: PhaseView::Ready, ..s },
                ActionView::AwaitCommand,
            ),
        },
        EventView::RequestFailed => (with_phase(s, PhaseView::Ready), ActionView::AwaitCommand),
    }
}

/// The executor's state: the commitment state of the execution chain, the
/// execution blocks of the sequencer blocks it executed and has not yet
/// firmly committed, its setting for empty blocks, and what it waits for.
pub struct Executor {
    chain_id: Vec<u8>,
    commitment_state: CommitmentState,
    sequencer_hash_to_execution_block: ExecutedBlocks,
    disable_empty_block_execution: bool,
    phase: Phase,
}

impl View for Executor {
    type V = ExecutorView;

    closed spec fn view(&self) -> ExecutorView {
        ExecutorView {
            chain_id: self.chain_id@,
            commitment_state: self.commitment_state@,
            executed_blocks: self.sequencer_hash_to_execution_block@,
            disable_empty_block_execution: self.disable_empty_block_execution,
            phase: self.phase@,
        }
    }
}

impl Executor {
    /// The record of executed blocks is well formed.
    pub closed spec fn wf(&self) -> bool {
        self.sequencer_hash_to_execution_block.wf()
    }

    /// An executor for the rollup with this chain id that starts from the
    /// commitment state reported by the execution service, with no executed
    /// blocks, ready for commands.
    pub fn new(
        commitment_state: CommitmentState,
        chain_id: Vec<u8>,
        disable_empty_block_execution: bool,
    ) -> (e: Executor)
        ensures
            e.wf(),
            e@ == (ExecutorView {
                chain_id: chain_id@,
                commitment_state: commitment_state@,
                executed_blocks: Map::empty(),
                disable_empty_block_execution,
                phase: PhaseView::Ready,
            }),
    {
        Executor {
            chain_id,
            commitment_state,
            sequencer_hash_to_execution_block: ExecutedBlocks::new(),
            disable_empty_block_execution,
            phase: Phase::Ready,
        }
    }

    /// The chain id of the rollup that the executor executes blocks for.
    pub fn chain_id(&self) -> (chain_id: &Vec<u8>)
        ensures
            chain_id@ == self@.chain_id,
    {
        &self.chain_id
    }

    /// The commitment state of the execution chain.
    pub fn commitment_state(&self) -> (cs: &CommitmentState)
        ensures
            cs@ == self@.commitment_state,
    {
        &self.commitment_state
    }

    /// Whether sequencer blocks without transactions are left unexecuted.
    pub fn disable_empty_block_execution(&self) -> (disabled: bool)
        ensures
            disabled == self@.disable_empty_block_execution,
    {
        self.disable_empty_block_execution
    }

    /// What the executor waits for.
    pub fn phase(&self) -> (phase: &Phase)
        ensures
            phase@ == self@.phase,
    {
        &self.phase
    }

    /// The execution block recorded for a sequencer block, if any.
    pub fn executed_block(&self, sequencer_block_hash: &Vec<u8>) -> (block: Option<Block>)
        requires
            self.wf(),
        ensures
            match block {
                Some(b) => self@.executed_blocks.contains_key(sequencer_block_hash@)
                    && b@ == self@.executed_blocks[sequencer_block_hash@],
                None => !self@.executed_blocks.contains_key(sequencer_block_hash@),
            },
    {
        self.sequencer_hash_to_execution_block.get(sequencer_block_hash)
    }

    /// The number of executed blocks not yet firmly committed.
    pub fn executed_block_count(&self) -> (n: usize)
        requires
            self.wf(),
        ensures
            n == self@.executed_blocks.dom().len(),
    {
        self.sequencer_hash_to_execution_block.len()
    }

    /// Whether every executed block has been firmly committed.
    pub fn has_no_executed_blocks(&self) -> (none: bool)
        requires
            self.wf(),
        ensures
            none == (self@.executed_blocks == Map::<Seq<u8>, BlockView>::empty()),
    {
        self.sequencer_hash_to_execution_block.is_empty()
    }

    /// Decides what to do with a sequencer block. A block without
    /// transactions is skipped when empty blocks are not executed; a block
    /// executed before gives its recorded execution block; otherwise the
    /// block is to be executed on top of the soft commitment, with the
    /// block's time as timestamp, and there is nothing to do when there is no
    /// soft commitment.
    pub fn execute_block(&self, block: SequencerBlockSubset) -> (decision: ExecutionDecision)
        requires
            self.wf(),
        ensures
            decision@ == spec_execute_block(self@, block@),
    {
        if self.disable_empty_block_execution && block.rollup_transactions.len() == 0 {
            return ExecutionDecision::SkippedEmptyBlock;
        }
        if let Some(executed) = self.sequencer_hash_to_execution_block.get(&block.block_hash) {
            return ExecutionDecision::AlreadyExecuted(executed);
        }
        match &self.commitment_state.soft {
            None => ExecutionDecision::MissingSoftCommitment,
            Some(soft) => {
                let prev_block_hash = copy_bytes(&soft.hash);
                ExecutionDecision::Execute(
                    ExecuteBlockRequest {
                        prev_block_hash,
                        transactions: block.rollup_transactions,
                        timestamp: Some(block.time),
                    },
                )
            },
        }
    }

    /// Records the execution block that executing a sequencer block gave, so
    /// that it can be committed firmly later.
    pub fn record_executed_block(&mut self, sequencer_block_hash: Vec<u8>, executed_block: Block)
        requires
            old(self).wf(),
        ensures
            final(self).wf(),
            final(self)@ == (ExecutorView {
                executed_blocks: old(self)@.executed_blocks.insert(
                    sequencer_block_hash@,
                    executed_block@,
                ),
                ..old(self)@
            }),
    {
        self.sequencer_hash_to_execution_block.insert(sequencer_block_hash, executed_block);
    }

    /// Forgets the execution block of a sequencer block, once it is firmly
    /// committed.
    pub fn finalize_executed_block(&mut self, sequencer_block_hash: &Vec<u8>)
        requires
            old(self).wf(),
        ensures
            final(self).wf(),
            final(self)@ == (ExecutorView {
                executed_blocks: old(self)@.executed_blocks.remove(sequencer_block_hash@),
                ..old(self)@
            }),
    {
        self.sequencer_hash_to_execution_block.remove(sequencer_block_hash);
    }

    /// Takes the commitment state that the execution service reported.
    pub fn update_commitment_state(&mut self, commitment_state: CommitmentState)
        ensures
            final(self)@ == (ExecutorView { commitment_state: commitment_state@, ..old(self)@ }),
            final(self).wf() == old(self).wf(),
    {
        self.commitment_state = commitment_state;
    }

    /// The commitment state with both the soft and the firm commitment at `block`.
    pub fn update_commitments(block: Block) -> (cs: CommitmentState)
        ensures
            cs@ == spec_update_commitments(block@),
    {
        CommitmentState { soft: Some(block.clone()), firm: Some(block) }
    }

    /// The commitment state with the firm commitment at `firm` and the soft
    /// commitment as it is.
    pub fn update_firm_commitment(&self, firm: Block) -> (cs: CommitmentState)
        ensures
            cs@ == spec_update_firm_commitment(self@.commitment_state, firm@),
    {
        CommitmentState { soft: copy_opt_block(&self.commitment_state.soft), firm: Some(firm) }
    }

    /// The commitment state with the soft commitment at `soft` and the firm
    /// commitment as it is.
    pub fn update_soft_commitment(&self, soft: Block) -> (cs: CommitmentState)
        ensures
            cs@ == spec_update_soft_commitment(self@.commitment_state, soft@),
    {
        CommitmentState { soft: Some(soft), firm: copy_opt_block(&self.commitment_state.firm) }
    }

    /// Decides what to do with a block from the data availability layer: a
    /// block executed before has its execution block committed firmly; any
    /// other block goes through [`Executor::execute_block`].
    pub fn handle_block_received_from_data_availability(&self, block: SequencerBlockSubset) -> (
        decision: FirmDecision)
        requires
            self.wf(),
        ensures
            decision@ == spec_handle_firm_block(self@, block@),
    {
        match self.sequencer_hash_to_execution_block.get(&block.block_hash) {
            Some(executed) => FirmDecision::CommitExecuted(self.update_firm_commitment(executed)),
            None => FirmDecision::Execution(self.execute_block(block)),
        }
    }

    /// Whether the executor takes `event` now.
    pub fn accepts(&self, event: &Event) -> (ok: bool)
        ensures
            ok == spec_accepts(self@.phase, event@),
    {
        match &self.phase {
            Phase::Ready => match event {
                Event::Command(_) => true,
                _ => false,
            },
            Phase::ExecutingSoft { .. } | Phase::ExecutingFirm { .. } => match event {
                Event::BlockExecuted(_) | Event::RequestFailed => true,
                _ => false,
            },
            Phase::CommittingSoft | Phase::CommittingFirm { .. } => match event {
                Event::CommitmentStateUpdated(_) | Event::RequestFailed => true,
                _ => false,
            },
            Phase::Stopped => false,
        }
    }

    /// Moves the executor on by one event and says what to do next.
    ///
    /// A block from the sequencer stream is executed, unless skipped, and
    /// its execution block becomes the soft commitment. A block from the
    /// data availability layer becomes the firm commitment: the recorded
    /// execution block if the block was executed before, else the block is
    /// executed and its execution block becomes both the soft and the firm
    /// commitment; once the commitment state is updated, the block's record
    /// is dropped. A failed request leaves the state as it is and the
    /// executor waits for the next command. `Shutdown` stops the executor.
    pub fn step(&mut self, event: Event) -> (action: Action)
        requires
            old(self).wf(),
            spec_accepts(old(self)@.phase, event@),
        ensures
            final(self).wf(),
            (final(self)@, action@) == spec_step(old(self)@, event@),
    {
        match event {
            Event::Command(ExecutorCommand::BlockReceivedFromSequencer { block }) => {
                let sequencer_block_hash = copy_bytes(&block.block_hash);
                match self.execute_block(block) {
                    ExecutionDecision::AlreadyExecuted(executed) => {
                        let request = self.update_soft_commitment(executed);
                        self.phase = Phase::CommittingSoft;
                        Action::UpdateCommitmentState(request)
                    },
                    ExecutionDecision::Execute(request) => {
                        self.phase = Phase::ExecutingSoft { sequencer_block_hash };
                        Action::ExecuteBlock(request)
                    },
                    _ => Action::AwaitCommand,
                }
            },
            Event::Command(ExecutorCommand::BlockReceivedFromDataAvailability { block }) => {
                let sequencer_block_hash = copy_bytes(&block.block_hash);
                match self.handle_block_received_from_data_availability(block) {
                    FirmDecision::CommitExecuted(request) => {
                        self.phase = Phase::CommittingFirm { sequencer_block_hash };
                        Action::UpdateCommitmentState(request)
                    },
                    FirmDecision::Execution(ExecutionDecision::Execute(request)) => {
                        self.phase = Phase::ExecutingFirm { sequencer_block_hash };
                        Action::ExecuteBlock(request)
                    },
                    _ => Action::AwaitCommand,
                }
            },
            Event::Command(ExecutorCommand::Shutdown) => {
                self.phase = Phase::Stopped;
                Action::Stop
            },
            Event::BlockExecuted(executed) => {
                let mut phase = Phase::Ready;
                std::mem::swap(&mut phase, &mut self.phase);
                match phase {
                    Phase::ExecutingSoft { sequencer_block_hash } => {
                        let request = self.update_soft_commitment(executed.clone());
                        self.record_executed_block(sequencer_block_hash, executed);
                        self.phase = Phase::CommittingSoft;
                        Action::UpdateCommitmentState(request)
                    },
                    Phase::ExecutingFirm { sequencer_block_hash } => {
                        let request = Executor::update_commitments(executed.clone());
                        let kept_hash = copy_bytes(&sequencer_block_hash);
                        self.record_executed_block(sequencer_block_hash, executed);
                        self.phase = Phase::CommittingFirm { sequencer_block_hash: kept_hash };
                        Action::UpdateCommitmentState(request)
                    },
                    other => {
                        self.phase = other;
                        Action::AwaitCommand
                    },
                }
            },
            Event::CommitmentStateUpdated(cs) => {
                let mut phase = Phase::Ready;
                std::mem::swap(&mut phase, &mut self.phase);
                self.update_commitment_state(cs);
                if let Phase::CommittingFirm { sequencer_block_hash } = phase {
                    self.finalize_executed_block(&sequencer_block_hash);
                }
                Action::AwaitCommand
            },
            Event::RequestFailed => {
                self.phase = Phase::Ready;
                Action::AwaitCommand
            },
        }
    }
}

} // verus!
