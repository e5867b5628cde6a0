//! Properties of the executor that span several steps.
use vstd::prelude::*;

use crate::executor::{
    spec_accepts, spec_execute_block, spec_handle_firm_block, spec_step, spec_update_commitments,
    spec_update_firm_commitment, spec_update_soft_commitment, ActionView, EventView,
    ExecuteBlockRequestView, ExecutionDecisionView, ExecutorCommandView, ExecutorView, FirmDecisionView, PhaseView,
};
use crate::types::{BlockView, CommitmentStateView, SequencerBlockSubsetView};

verus! {

/// Whether `block` is left unexecuted in state `s` because it is empty.
pub open spec fn is_skipped(s: ExecutorView, block: SequencerBlockSubsetView) -> bool {
    s.disable_empty_block_execution && block.rollup_transactions.len() == 0
}

/// A sequencer block that was executed is not executed again: once the
/// execution block `executed` is recorded for its hash, deciding on the block
/// gives back that same execution block.
pub proof fn lemma_executed_block_is_reused(
    s: ExecutorView,
    block: SequencerBlockSubsetView,
    executed: BlockView,
)
    requires
        !is_skipped(s, block),
    ensures
        spec_execute_block(
            ExecutorView {
                executed_blocks: s.executed_blocks.insert(block.block_hash, executed),
                ..s
            },
            block,
        ) == ExecutionDecisionView::AlreadyExecuted(executed),
{
}

/// A block from the sequencer stream that was not executed before is
/// executed on top of the soft commitment; its execution block becomes the
/// soft commitment, the firm commitment stays, and the execution block stays
/// recorded for the block's hash until the block is committed firmly.
pub proof fn lemma_soft_block_round_trip(
    s: ExecutorView,
    block: SequencerBlockSubsetView,
    executed: BlockView,
    reported: CommitmentStateView,
)
    requires
        s.phase == PhaseView::Ready,
        !is_skipped(s, block),
        !s.executed_blocks.contains_key(block.block_hash),
        s.commitment_state.soft is Some,
    ensures
        ({
            let (s1, a1) = spec_step(
                s,
                EventView::Command(ExecutorCommandView::BlockReceivedFromSequencer { block }),
            );
            let (s2, a2) = spec_step(s1, EventView::BlockExecuted(executed));
            let (s3, a3) = spec_step(s2, EventView::CommitmentStateUpdated(reported));
            &&& spec_accepts(s1.phase, EventView::BlockExecuted(executed))
            &&& spec_accepts(s2.phase, EventView::CommitmentStateUpdated(reported))
            &&& a1 == ActionView::ExecuteBlock(
                ExecuteBlockRequestView {
                    prev_block_hash: s.commitment_state.soft.unwrap().hash,
                    transactions: block.rollup_transactions,
                    timestamp: Some(block.time),
                },
            )
            &&& a2 == ActionView::UpdateCommitmentState(
                CommitmentStateView { soft: Some(executed), firm: s.commitment_state.firm },
            )
            &&& a3 == ActionView::AwaitCommand
            &&& s3 == ExecutorView {
                commitment_state: reported,
                executed_blocks: s.executed_blocks.insert(block.block_hash, executed),
                ..s
            }
        }),
{
}

/// A block from the data availability layer that was not executed before is
/// executed on top of the soft commitment, its execution block becomes both
/// the soft and the firm commitment, and afterwards no record of it is kept:
/// the executed blocks are as they were before.
pub proof fn lemma_firm_block_round_trip(
    s: ExecutorView,
    block: SequencerBlockSubsetView,
    executed: BlockView,
    reported: CommitmentStateView,
)
    requires
        s.phase == PhaseView::Ready,
        !is_skipped(s, block),
        !s.executed_blocks.contains_key(block.block_hash),
        s.commitment_state.soft is Some,
    ensures
        ({
            let (s1, a1) = spec_step(
                s,
                EventView::Command(ExecutorCommandView::BlockReceivedFromDataAvailability { block }),
            );
            let (s2, a2) = spec_step(s1, EventView::BlockExecuted(executed));
            let (s3, a3) = spec_step(s2, EventView::CommitmentStateUpdated(reported));
            &&& spec_accepts(s1.phase, EventView::BlockExecuted(executed))
            &&& spec_accepts(s2.phase, EventView::CommitmentStateUpdated(reported))
            &&& a1 == ActionView::ExecuteBlock(
                ExecuteBlockRequestView {
                    prev_block_hash: s.commitment_state.soft.unwrap().hash,
                    transactions: block.rollup_transactions,
                    timestamp: Some(block.time),
                },
            )
            &&& a2 == ActionView::UpdateCommitmentState(
                CommitmentStateView { soft: Some(executed), firm: Some(executed) },
            )
            &&& a3 == ActionView::AwaitCommand
            &&& s3 == ExecutorView { commitment_state: reported, ..s }
        }),
{
    let (s1, a1) = spec_step(
        s,
        EventView::Command(ExecutorCommandView::BlockReceivedFromDataAvailability { block }),
    );
    let (s2, a2) = spec_step(s1, EventView::BlockExecuted(executed));
    let (s3, a3) = spec_step(s2, EventView::CommitmentStateUpdated(reported));
    assert(s3.executed_blocks =~= s.executed_blocks);
}

/// A block from the data availability layer that was executed before is not
/// executed again: its recorded execution block becomes the firm commitment,
/// the soft commitment stays, and then its record is dropped.
pub proof fn lemma_firm_commit_of_executed_block(
    s: ExecutorView,
    block: SequencerBlockSubsetView,
    reported: CommitmentStateView,
)
    requires
        s.phase == PhaseView::Ready,
        s.executed_blocks.contains_key(block.block_hash),
    ensures
        ({
            let (s1, a1) = spec_step(
                s,
                EventView::Command(ExecutorCommandView::BlockReceivedFromDataAvailability { block }),
            );
            let (s2, a2) = spec_step(s1, EventView::CommitmentStateUpdated(reported));
            &&& spec_accepts(s1.phase, EventView::CommitmentStateUpdated(reported))
            &&& a1 == ActionView::UpdateCommitmentState(
                CommitmentStateView {
                    soft: s.commitment_state.soft,
                    firm: Some(s.executed_blocks[block.block_hash]),
                },
            )
            &&& a2 == ActionView::AwaitCommand
            &&& s2 == ExecutorView {
                commitment_state: reported,
                executed_blocks: s.executed_blocks.remove(block.block_hash),
                ..s
            }
        }),
{
}

/// An empty block that is not to be executed changes nothing, whichever
/// source it comes from (from the data availability layer: unless it was
/// executed before).
pub proof fn lemma_skipped_block_changes_nothing(s: ExecutorView, block: SequencerBlockSubsetView)
    requires
        is_skipped(s, block),
    ensures
        spec_step(s, EventView::Command(ExecutorCommandView::BlockReceivedFromSequencer { block }))
            == (s, ActionView::AwaitCommand),
        !s.executed_blocks.contains_key(block.block_hash) ==> spec_step(
            s,
            EventView::Command(ExecutorCommandView::BlockReceivedFromDataAvailability { block }),
        ) == (s, ActionView::AwaitCommand),
{
}

/// Without a soft commitment no block can be executed: a block that is not
/// skipped and not executed before changes nothing.
pub proof fn lemma_no_soft_commitment_changes_nothing(
    s: ExecutorView,
    block: SequencerBlockSubsetView,
)
    requires
        s.commitment_state.soft is None,
        !s.executed_blocks.contains_key(block.block_hash),
    ensures
        spec_step(s, EventView::Command(ExecutorCommandView::BlockReceivedFromSequencer { block }))
            == (s, ActionView::AwaitCommand),
        spec_step(
            s,
            EventView::Command(ExecutorCommandView::BlockReceivedFromDataAvailability { block }),
        ) == (s, ActionView::AwaitCommand),
{
}

/// A failed request to the execution service leaves the commitment state and
/// the executed blocks as they are, and the executor waits for the next
/// command.
pub proof fn lemma_failed_request_keeps_state(s: ExecutorView)
    requires
        spec_accepts(s.phase, EventView::RequestFailed),
    ensures
        spec_step(s, EventView::RequestFailed) == (
            ExecutorView { phase: PhaseView::Ready, ..s },
            ActionView::AwaitCommand,
        ),
{
}

/// The commitment state always becomes the one the execution service
/// reports, and the executor is then ready for the next command.
pub proof fn lemma_reported_commitment_state_is_taken(
    s: ExecutorView,
    reported: CommitmentStateView,
)
    requires
        spec_accepts(s.phase, EventView::CommitmentStateUpdated(reported)),
    ensures
        spec_step(s, EventView::CommitmentStateUpdated(reported)).0.commitment_state == reported,
        spec_step(s, EventView::CommitmentStateUpdated(reported)).0.phase == PhaseView::Ready,
        spec_step(s, EventView::CommitmentStateUpdated(reported)).1 == ActionView::AwaitCommand,
{
}

/// After `Shutdown` the executor stops and takes no further event.
pub proof fn lemma_shutdown_is_final(s: ExecutorView, event: EventView)
    requires
        s.phase == PhaseView::Ready,
    ensures
        spec_step(s, EventView::Command(ExecutorCommandView::Shutdown)).1 == ActionView::Stop,
        !spec_accepts(
            spec_step(s, EventView::Command(ExecutorCommandView::Shutdown)).0.phase,
            event,
        ),
{
}

/// Commitment updates move one commitment and keep the other: a firm update
/// keeps the soft commitment, a soft update keeps the firm commitment, and a
/// full update puts both at the same block.
pub proof fn lemma_commitment_updates(cs: CommitmentStateView, block: BlockView)
    ensures
        spec_update_firm_commitment(cs, block).soft == cs.soft,
        spec_update_firm_commitment(cs, block).firm == Some(block),
        spec_update_soft_commitment(cs, block).firm == cs.firm,
        spec_update_soft_commitment(cs, block).soft == Some(block),
        spec_update_commitments(block).soft == spec_update_commitments(block).firm,
{
}

/// Whether the executor in phase `phase`, having asked for `action`, takes
/// every outcome of that action: every command after `AwaitCommand`, the
/// executed block or a failure after `ExecuteBlock`, the reported state or a
/// failure after `UpdateCommitmentState`, and nothing after `Stop`.
pub open spec fn takes_outcome_of(phase: PhaseView, action: ActionView) -> bool {
    match action {
        ActionView::AwaitCommand => forall|c: ExecutorCommandView|
            #[trigger] spec_accepts(phase, EventView::Command(c)),
        ActionView::ExecuteBlock(_) => {
            &&& forall|b: BlockView| #[trigger] spec_accepts(phase, EventView::BlockExecuted(b))
            &&& spec_accepts(phase, EventView::RequestFailed)
        },
        ActionView::UpdateCommitmentState(_) => {
            &&& forall|cs: CommitmentStateView|
                #[trigger] spec_accepts(phase, EventView::CommitmentStateUpdated(cs))
            &&& spec_accepts(phase, EventView::RequestFailed)
        },
        ActionView::Stop => forall|e: EventView| !#[trigger] spec_accepts(phase, e),
    }
}

/// The executor always takes the outcome of what it asked for: a new
/// executor takes every command, and after each step it takes every outcome
/// of the action that the step returned.
pub proof fn lemma_outcome_of_action_is_taken(s: ExecutorView, event: EventView)
    ensures
        takes_outcome_of(PhaseView::Ready, ActionView::AwaitCommand),
        spec_accepts(s.phase, event) ==> takes_outcome_of(
            spec_step(s, event).0.phase,
            spec_step(s, event).1,
        ),
{
}

/// The event that reports the outcome of an execution: the executed block,
/// or a failure.
pub open spec fn execution_outcome(executed: Option<BlockView>) -> EventView {
    match executed {
        Some(b) => EventView::BlockExecuted(b),
        None => EventView::RequestFailed,
    }
}

/// The event that reports the outcome of a commitment update: the reported
/// commitment state, or a failure.
pub open spec fn update_outcome(reported: Option<CommitmentStateView>) -> EventView {
    match reported {
        Some(cs) => EventView::CommitmentStateUpdated(cs),
        None => EventView::RequestFailed,
    }
}

/// The state and the last action after `event` and the requests it leads
/// to: an execution, if asked for, ends with `executed` (`None`: it failed),
/// and a commitment update, if asked for, with `reported` (`None`: it
/// failed).
pub open spec fn settle(
    s: ExecutorView,
    event: EventView,
    executed: Option<BlockView>,
    reported: Option<CommitmentStateView>,
) -> (ExecutorView, ActionView) {
    let (s1, a1) = spec_step(s, event);
    match a1 {
        ActionView::ExecuteBlock(_) => {
            let (s2, a2) = spec_step(s1, execution_outcome(executed));
            match a2 {
                ActionView::UpdateCommitmentState(_) => spec_step(s2, update_outcome(reported)),
                _ => (s2, a2),
            }
        },
        ActionView::UpdateCommitmentState(_) => spec_step(s1, update_outcome(reported)),
        _ => (s1, a1),
    }
}

/// Each command is handled to its end, whatever the execution service
/// answers or fails: after a block command the executor waits for the next
/// command, and only `Shutdown` stops it.
pub proof fn lemma_command_settles(
    s: ExecutorView,
    command: ExecutorCommandView,
    executed: Option<BlockView>,
    reported: Option<CommitmentStateView>,
)
    requires
        s.phase == PhaseView::Ready,
    ensures
        ({
            let (t, a) = settle(s, EventView::Command(command), executed, reported);
            if command is Shutdown {
                t.phase == PhaseView::Stopped && a == ActionView::Stop
            } else {
                t.phase == PhaseView::Ready && a == ActionView::AwaitCommand
            }
        }),
{
}

/// Once a block from the data availability layer is handled without a
/// failed request, no record of it is kept, and the records of all other
/// sequencer blocks are as they were.
pub proof fn lemma_firm_block_is_forgotten(
    s: ExecutorView,
    block: SequencerBlockSubsetView,
    executed: BlockView,
    reported: CommitmentStateView,
)
    requires
        s.phase == PhaseView::Ready,
    ensures
        settle(
            s,
            EventView::Command(ExecutorCommandView::BlockReceivedFromDataAvailability { block }),
            Some(executed),
            Some(reported),
        ).0.executed_blocks == s.executed_blocks.remove(block.block_hash),
{
    let t = settle(
        s,
        EventView::Command(ExecutorCommandView::BlockReceivedFromDataAvailability { block }),
        Some(executed),
        Some(reported),
    );
    if s.executed_blocks.contains_key(block.block_hash) {
    } else {
        assert(s.executed_blocks.insert(block.block_hash, executed).remove(block.block_hash)
            =~= s.executed_blocks.remove(block.block_hash));
        assert(s.executed_blocks.remove(block.block_hash) =~= s.executed_blocks);
    }
}

/// What is decided for a sequencer block: an empty block is skipped when
/// empty blocks are not executed; otherwise a block executed before gives
/// back its recorded execution block; otherwise the block is executed on top
/// of the soft commitment, with exactly its transactions and its time, and
/// without a soft commitment nothing is done.
pub proof fn lemma_execute_block_decision(s: ExecutorView, block: SequencerBlockSubsetView)
    ensures
        is_skipped(s, block) ==> spec_execute_block(s, block)
            == ExecutionDecisionView::SkippedEmptyBlock,
        !is_skipped(s, block) && s.executed_blocks.contains_key(block.block_hash)
            ==> spec_execute_block(s, block) == ExecutionDecisionView::AlreadyExecuted(
            s.executed_blocks[block.block_hash],
        ),
        !is_skipped(s, block) && !s.executed_blocks.contains_key(block.block_hash)
            && s.commitment_state.soft is Some ==> spec_execute_block(s, block)
            == ExecutionDecisionView::Execute(
            ExecuteBlockRequestView {
                prev_block_hash: s.commitment_state.soft.unwrap().hash,
                transactions: block.rollup_transactions,
                timestamp: Some(block.time),
            },
        ),
        !is_skipped(s, block) && !s.executed_blocks.contains_key(block.block_hash)
            && s.commitment_state.soft is None ==> spec_execute_block(s, block)
            == ExecutionDecisionView::MissingSoftCommitment,
{
}

/// The decision for a sequencer block does not depend on the firm
/// commitment: blocks are executed on top of the soft head, wherever the
/// firm head is.
pub proof fn lemma_execution_ignores_firm_commitment(
    s: ExecutorView,
    firm: Option<BlockView>,
    block: SequencerBlockSubsetView,
)
    ensures
        spec_execute_block(
            ExecutorView {
                commitment_state: CommitmentStateView { soft: s.commitment_state.soft, firm },
                ..s
            },
            block,
        ) == spec_execute_block(s, block),
{
}

/// What is decided for a block from the data availability layer: a block
/// executed before has its recorded execution block committed firmly, with
/// the soft commitment kept; any other block is decided on exactly as a
/// sequencer block in the same state, so an empty block is skipped when
/// empty blocks are not executed.
pub proof fn lemma_firm_block_decision(s: ExecutorView, block: SequencerBlockSubsetView)
    ensures
        s.executed_blocks.contains_key(block.block_hash) ==> spec_handle_firm_block(s, block)
            == FirmDecisionView::CommitExecuted(
            CommitmentStateView {
                soft: s.commitment_state.soft,
                firm: Some(s.executed_blocks[block.block_hash]),
            },
        ),
        !s.executed_blocks.contains_key(block.block_hash) ==> spec_handle_firm_block(s, block)
            == FirmDecisionView::Execution(spec_execute_block(s, block)),
        !s.executed_blocks.contains_key(block.block_hash) && is_skipped(s, block)
            ==> spec_handle_firm_block(s, block) == FirmDecisionView::Execution(
            ExecutionDecisionView::SkippedEmptyBlock,
        ),
{
}

/// A command's first step does what the decision for its block says: for a
/// sequencer block, a recorded execution block becomes the soft commitment,
/// an execution request is sent as decided, and otherwise the executor waits;
/// for a block from the data availability layer, a firm commitment is
/// requested or the block executed as decided, and otherwise the executor
/// waits.
pub proof fn lemma_command_follows_decision(s: ExecutorView, block: SequencerBlockSubsetView)
    ensures
        spec_step(s, EventView::Command(ExecutorCommandView::BlockReceivedFromSequencer { block })).1
            == match spec_execute_block(s, block) {
            ExecutionDecisionView::AlreadyExecuted(executed) => ActionView::UpdateCommitmentState(
                CommitmentStateView { soft: Some(executed), firm: s.commitment_state.firm },
            ),
            ExecutionDecisionView::Execute(request) => ActionView::ExecuteBlock(request),
            _ => ActionView::AwaitCommand,
        },
        spec_step(
            s,
            EventView::Command(ExecutorCommandView::BlockReceivedFromDataAvailability { block }),
        ).1 == match spec_handle_firm_block(s, block) {
            FirmDecisionView::CommitExecuted(request) => ActionView::UpdateCommitmentState(request),
            FirmDecisionView::Execution(ExecutionDecisionView::Execute(request)) => {
                ActionView::ExecuteBlock(request)
            },
            _ => ActionView::AwaitCommand,
        },
{
}

/// A block from the sequencer stream never moves the firm commitment: every
/// commitment update requested while handling it keeps the firm commitment
/// and puts the soft commitment at the block's execution block, the recorded
/// one if the block was executed before.
pub proof fn lemma_sequencer_block_keeps_firm(
    s: ExecutorView,
    block: SequencerBlockSubsetView,
    executed: BlockView,
)
    requires
        s.phase == PhaseView::Ready,
    ensures
        ({
            let (s1, a1) = spec_step(
                s,
                EventView::Command(ExecutorCommandView::BlockReceivedFromSequencer { block }),
            );
            &&& !is_skipped(s, block) && s.executed_blocks.contains_key(block.block_hash) ==> a1
                == ActionView::UpdateCommitmentState(
                CommitmentStateView {
                    soft: Some(s.executed_blocks[block.block_hash]),
                    firm: s.commitment_state.firm,
                },
            )
            &&& a1 matches ActionView::UpdateCommitmentState(cs) ==> cs.firm
                == s.commitment_state.firm
            &&& a1 is ExecuteBlock ==> spec_step(s1, EventView::BlockExecuted(executed)).1
                == ActionView::UpdateCommitmentState(
                CommitmentStateView { soft: Some(executed), firm: s.commitment_state.firm },
            )
            &&& !(a1 is Stop)
        }),
{
}

} // verus!
