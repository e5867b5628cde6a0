use std::collections::HashSet;

use astria_conductor::executor::{
    Action, Event, ExecuteBlockRequest, ExecutionDecision, Executor, ExecutorCommand,
    FirmDecision, Phase,
};
use astria_conductor::types::{Block, CommitmentState, SequencerBlockSubset, Timestamp};
use sha2::Digest as _;

fn hash(s: &[u8]) -> Vec<u8> {
    let mut hasher = sha2::Sha256::new();
    hasher.update(s);
    hasher.finalize().to_vec()
}

/// An execution service that executes a block into one whose hash is the
/// sha256 of its parent's hash, and records the hashes of firm blocks.
struct MockExecutionClient {
    finalized_blocks: HashSet<Vec<u8>>,
    fail_next: bool,
}

impl MockExecutionClient {
    fn new() -> Self {
        Self {
            finalized_blocks: HashSet::new(),
            fail_next: false,
        }
    }

    fn call_execute_block(&mut self, request: ExecuteBlockRequest) -> Option<Block> {
        if self.fail_next {
            self.fail_next = false;
            return None;
        }
        Some(Block {
            number: 1,
            hash: hash(&request.prev_block_hash),
            parent_block_hash: request.prev_block_hash,
            timestamp: request.timestamp,
        })
    }

    fn call_get_commitment_state(&mut self) -> CommitmentState {
        let block = Block {
            number: 1,
            hash: hash(b"block1"),
            parent_block_hash: hash(b"block0"),
            timestamp: Some(Timestamp {
                seconds: 1_700_000_000,
                nanos: 0,
            }),
        };
        CommitmentState {
            soft: Some(block.clone()),
            firm: Some(block),
        }
    }

    fn call_update_commitment_state(
        &mut self,
        commitment_state: CommitmentState,
    ) -> Option<CommitmentState> {
        if self.fail_next {
            self.fail_next = false;
            return None;
        }
        self.finalized_blocks
            .insert(commitment_state.firm.clone().unwrap().hash);
        Some(commitment_state)
    }
}

fn new_executor(client: &mut MockExecutionClient, disable_empty_block_execution: bool) -> Executor {
    Executor::new(
        client.call_get_commitment_state(),
        b"test".to_vec(),
        disable_empty_block_execution,
    )
}

/// Hands `event` to the executor and performs the requests it asks for
/// until it waits for the next command; returns the last action, or `Err`
/// if one of the requests failed.
fn drive(
    executor: &mut Executor,
    client: &mut MockExecutionClient,
    event: Event,
) -> Result<Action, ()> {
    let mut event = event;
    let mut failed = false;
    loop {
        assert!(executor.accepts(&event));
        if matches!(event, Event::RequestFailed) {
            failed = true;
        }
        match executor.step(event) {
            Action::ExecuteBlock(request) => {
                event = match client.call_execute_block(request) {
                    Some(block) => Event::BlockExecuted(block),
                    None => Event::RequestFailed,
                };
            }
            Action::UpdateCommitmentState(cs) => {
                event = match client.call_update_commitment_state(cs) {
                    Some(cs) => Event::CommitmentStateUpdated(cs),
                    None => Event::RequestFailed,
                };
            }
            other => return if failed { Err(()) } else { Ok(other) },
        }
    }
}

/// Executes a sequencer block as far as the execution service goes and
/// returns the execution block, if there is one.
fn execute_block(
    executor: &mut Executor,
    client: &mut MockExecutionClient,
    block: SequencerBlockSubset,
) -> Option<Block> {
    let sequencer_block_hash = block.block_hash.clone();
    match executor.execute_block(block) {
        ExecutionDecision::SkippedEmptyBlock | ExecutionDecision::MissingSoftCommitment => None,
        ExecutionDecision::AlreadyExecuted(block) => Some(block),
        ExecutionDecision::Execute(request) => {
            let executed = client.call_execute_block(request)?;
            executor.record_executed_block(sequencer_block_hash, executed.clone());
            Some(executed)
        }
    }
}

fn handle_block_received_from_data_availability(
    executor: &mut Executor,
    client: &mut MockExecutionClient,
    block: SequencerBlockSubset,
) -> Result<Action, ()> {
    drive(
        executor,
        client,
        Event::Command(ExecutorCommand::BlockReceivedFromDataAvailability { block }),
    )
}

fn get_test_block_subset() -> SequencerBlockSubset {
    SequencerBlockSubset {
        block_hash: hash(b"block1"),
        height: 1,
        time: Timestamp {
            seconds: 1_700_000_001,
            nanos: 5,
        },
        rollup_transactions: vec![],
    }
}

#[test]
fn execute_sequencer_block_without_txs() {
    let mut client = MockExecutionClient::new();
    let mut executor = new_executor(&mut client, false);

    let expected_execution_hash = hash(
        &executor
            .commitment_state()
            .soft
            .clone()
            .unwrap()
            .hash,
    );
    let mut block = get_test_block_subset();
    block.rollup_transactions.push(b"test_transaction".to_vec());

    let executed_block = execute_block(&mut executor, &mut client, block)
        .expect("expected execution block hash");
    assert_eq!(expected_execution_hash, executed_block.hash);
}

#[test]
fn skip_sequencer_block_without_txs() {
    let mut client = MockExecutionClient::new();
    let mut executor = new_executor(&mut client, true);

    let block = get_test_block_subset();
    let executed_block = execute_block(&mut executor, &mut client, block);
    assert!(executed_block.is_none());
}

#[test]
fn execute_unexecuted_da_block_with_transactions() {
    let mut client = MockExecutionClient::new();
    let mut executor = new_executor(&mut client, false);

    let mut block = get_test_block_subset();
    block.rollup_transactions.push(b"test_transaction".to_vec());

    let expected_execution_hash = hash(&hash(b"block1"));

    handle_block_received_from_data_availability(&mut executor, &mut client, block).unwrap();

    let firm_hash = executor
        .commitment_state()
        .firm
        .clone()
        .unwrap()
        .hash;
    // should have executed and finalized the block
    assert_eq!(client.finalized_blocks.len(), 1);
    assert!(client.finalized_blocks.get(&firm_hash).is_some());
    assert_eq!(expected_execution_hash, firm_hash);
    // should be empty because 1 block was executed and finalized, which deletes it from the map
    assert!(executor.has_no_executed_blocks());
    // should have updated the firm and soft commitments to the executed block
    assert_eq!(
        executor.commitment_state().firm.clone().unwrap().hash,
        executor.commitment_state().soft.clone().unwrap().hash
    );
}

#[test]
fn update_firm_after_receive_executed_da_block() {
    let mut client = MockExecutionClient::new();
    let mut executor = new_executor(&mut client, false);

    let block = get_test_block_subset();

    // this insertion simulates the block being executed on a previous run loop
    let initial_block_hash = hash(b"block1");
    let next_block = Block {
        number: 1,
        hash: hash(&initial_block_hash),
        parent_block_hash: initial_block_hash.clone(),
        timestamp: None,
    };
    executor.record_executed_block(initial_block_hash, next_block);

    handle_block_received_from_data_availability(&mut executor, &mut client, block).unwrap();

    // should be empty because 1 block was finalized, which deletes it from the map
    assert!(executor.has_no_executed_blocks());
    // should have updated the firm commitment but the soft one stayed the same
    assert_ne!(
        executor.commitment_state().firm.clone().unwrap().hash,
        executor.commitment_state().soft.clone().unwrap().hash
    );
}

#[test]
fn skip_unexecuted_da_block_with_no_transactions() {
    let mut client = MockExecutionClient::new();
    let mut executor = new_executor(&mut client, true);

    let block = get_test_block_subset();
    let firm = executor.commitment_state().firm.clone().unwrap();
    let previous_execution_state = firm.hash.clone();

    handle_block_received_from_data_availability(&mut executor, &mut client, block).unwrap();

    // should not have executed or finalized the block
    assert!(client.finalized_blocks.is_empty());
    assert_eq!(
        previous_execution_state,
        executor.commitment_state().firm.clone().unwrap().hash
    );
    // should be empty because nothing was executed
    assert!(executor.has_no_executed_blocks());
}

#[test]
fn execute_unexecuted_da_block_with_no_transactions() {
    let mut client = MockExecutionClient::new();
    let mut executor = new_executor(&mut client, false);

    let block = get_test_block_subset();
    let expected_execution_hash = hash(&hash(b"block1"));

    handle_block_received_from_data_availability(&mut executor, &mut client, block).unwrap();

    let firm_hash = executor
        .commitment_state()
        .firm
        .clone()
        .unwrap()
        .hash;
    // should have executed and finalized the block
    assert_eq!(client.finalized_blocks.len(), 1);
    assert!(client.finalized_blocks.get(&firm_hash).is_some());
    assert_eq!(expected_execution_hash, firm_hash);
    // should be empty because 1 block was executed and finalized, which deletes it from the map
    assert!(executor.has_no_executed_blocks());
    // should have updated the firm and soft commitments to the executed block
    assert_eq!(
        executor.commitment_state().firm.clone().unwrap().hash,
        executor.commitment_state().soft.clone().unwrap().hash
    );
}

#[test]
fn execute_block_request_is_built_on_soft_commitment() {
    let mut client = MockExecutionClient::new();
    let executor = new_executor(&mut client, false);
    let mut block = get_test_block_subset();
    block.rollup_transactions.push(b"a".to_vec());
    block.rollup_transactions.push(b"bc".to_vec());
    match executor.execute_block(block) {
        ExecutionDecision::Execute(request) => {
            assert_eq!(request.prev_block_hash, hash(b"block1"));
            assert_eq!(request.transactions, vec![b"a".to_vec(), b"bc".to_vec()]);
            assert_eq!(
                request.timestamp,
                Some(Timestamp {
                    seconds: 1_700_000_001,
                    nanos: 5
                })
            );
        }
        other => panic!("unexpected decision {other:?}"),
    }
}

#[test]
fn execute_block_without_soft_commitment_does_nothing() {
    let executor = Executor::new(
        CommitmentState {
            soft: None,
            firm: None,
        },
        b"test".to_vec(),
        false,
    );
    let decision = executor.execute_block(get_test_block_subset());
    assert!(matches!(decision, ExecutionDecision::MissingSoftCommitment));
}

#[test]
fn executed_sequencer_block_is_reused() {
    let mut client = MockExecutionClient::new();
    let mut executor = new_executor(&mut client, false);
    let mut block = get_test_block_subset();
    block.rollup_transactions.push(b"tx".to_vec());
    let first = execute_block(&mut executor, &mut client, block).unwrap();

    let mut again = get_test_block_subset();
    again.rollup_transactions.push(b"tx".to_vec());
    match executor.execute_block(again) {
        ExecutionDecision::AlreadyExecuted(reused) => {
            assert_eq!(reused.hash, first.hash);
            assert_eq!(reused.parent_block_hash, first.parent_block_hash);
        }
        other => panic!("unexpected decision {other:?}"),
    }
}

#[test]
fn soft_block_round_trip() {
    let mut client = MockExecutionClient::new();
    let mut executor = new_executor(&mut client, false);
    let firm_before = executor.commitment_state().firm.clone().unwrap().hash;
    let mut block = get_test_block_subset();
    block.rollup_transactions.push(b"tx".to_vec());

    let action = drive(
        &mut executor,
        &mut client,
        Event::Command(ExecutorCommand::BlockReceivedFromSequencer { block }),
    )
    .unwrap();
    assert!(matches!(action, Action::AwaitCommand));
    let soft = executor.commitment_state().soft.clone().unwrap();
    assert_eq!(soft.hash, hash(&hash(b"block1")));
    assert_eq!(executor.commitment_state().firm.clone().unwrap().hash, firm_before);
    // the executed block stays recorded until the block is firmly committed
    assert_eq!(executor.executed_block_count(), 1);
    let recorded = executor.executed_block(&hash(b"block1")).unwrap();
    assert_eq!(recorded.hash, soft.hash);

    // then the same block arrives from data availability and becomes firm
    let mut da_block = get_test_block_subset();
    da_block.rollup_transactions.push(b"tx".to_vec());
    handle_block_received_from_data_availability(&mut executor, &mut client, da_block).unwrap();
    assert!(executor.has_no_executed_blocks());
    assert_eq!(executor.commitment_state().firm.clone().unwrap().hash, soft.hash);
    assert_eq!(executor.commitment_state().soft.clone().unwrap().hash, soft.hash);
}

#[test]
fn firm_decision_for_executed_block_keeps_soft() {
    let mut client = MockExecutionClient::new();
    let mut executor = new_executor(&mut client, false);
    let executed = Block {
        number: 7,
        hash: vec![7; 32],
        parent_block_hash: vec![6; 32],
        timestamp: None,
    };
    executor.record_executed_block(hash(b"block1"), executed);
    match executor.handle_block_received_from_data_availability(get_test_block_subset()) {
        FirmDecision::CommitExecuted(cs) => {
            assert_eq!(cs.firm.unwrap().hash, vec![7; 32]);
            assert_eq!(cs.soft.unwrap().hash, hash(b"block1"));
        }
        other => panic!("unexpected decision {other:?}"),
    }
}

#[test]
fn failed_execution_keeps_state() {
    let mut client = MockExecutionClient::new();
    let mut executor = new_executor(&mut client, false);
    client.fail_next = true;
    let mut block = get_test_block_subset();
    block.rollup_transactions.push(b"tx".to_vec());
    let result = handle_block_received_from_data_availability(&mut executor, &mut client, block);
    assert!(result.is_err());
    assert!(matches!(executor.phase(), Phase::Ready));
    assert!(executor.has_no_executed_blocks());
    assert_eq!(executor.commitment_state().firm.clone().unwrap().hash, hash(b"block1"));
    assert!(client.finalized_blocks.is_empty());
}

#[test]
fn failed_commitment_update_keeps_executed_block() {
    let mut client = MockExecutionClient::new();
    let mut executor = new_executor(&mut client, false);
    let mut block = get_test_block_subset();
    block.rollup_transactions.push(b"tx".to_vec());
    let action = executor.step(Event::Command(ExecutorCommand::BlockReceivedFromDataAvailability {
        block,
    }));
    let request = match action {
        Action::ExecuteBlock(request) => request,
        other => panic!("unexpected action {other:?}"),
    };
    let executed = client.call_execute_block(request).unwrap();
    let action = executor.step(Event::BlockExecuted(executed));
    assert!(matches!(action, Action::UpdateCommitmentState(_)));
    let action = executor.step(Event::RequestFailed);
    assert!(matches!(action, Action::AwaitCommand));
    // the execution block stays recorded, the commitments are unchanged
    assert_eq!(executor.executed_block_count(), 1);
    assert_eq!(executor.commitment_state().firm.clone().unwrap().hash, hash(b"block1"));
}

#[test]
fn shutdown_stops_the_executor() {
    let mut client = MockExecutionClient::new();
    let mut executor = new_executor(&mut client, false);
    let action = executor.step(Event::Command(ExecutorCommand::Shutdown));
    assert!(matches!(action, Action::Stop));
    assert!(matches!(executor.phase(), Phase::Stopped));
    assert!(!executor.accepts(&Event::Command(ExecutorCommand::Shutdown)));
    assert!(!executor.accepts(&Event::RequestFailed));
}

#[test]
fn accepts_only_the_awaited_outcome() {
    let mut client = MockExecutionClient::new();
    let mut executor = new_executor(&mut client, false);
    assert!(executor.accepts(&Event::Command(ExecutorCommand::Shutdown)));
    assert!(!executor.accepts(&Event::RequestFailed));
    let mut block = get_test_block_subset();
    block.rollup_transactions.push(b"tx".to_vec());
    let _ = executor.step(Event::Command(ExecutorCommand::BlockReceivedFromSequencer { block }));
    assert!(matches!(executor.phase(), Phase::ExecutingSoft { .. }));
    assert!(executor.accepts(&Event::RequestFailed));
    assert!(!executor.accepts(&Event::Command(ExecutorCommand::Shutdown)));
    assert!(!executor.accepts(&Event::CommitmentStateUpdated(CommitmentState {
        soft: None,
        firm: None
    })));
}

#[test]
fn commitment_updates_move_one_commitment() {
    let mut client = MockExecutionClient::new();
    let executor = new_executor(&mut client, false);
    let b = Block {
        number: 2,
        hash: vec![2],
        parent_block_hash: vec![1],
        timestamp: None,
    };
    let firm = executor.update_firm_commitment(b.clone());
    assert_eq!(firm.firm.unwrap().hash, vec![2]);
    assert_eq!(firm.soft.unwrap().hash, hash(b"block1"));
    let soft = executor.update_soft_commitment(b.clone());
    assert_eq!(soft.soft.unwrap().hash, vec![2]);
    assert_eq!(soft.firm.unwrap().hash, hash(b"block1"));
    let both = Executor::update_commitments(b);
    assert_eq!(both.soft.unwrap().number, 2);
    assert_eq!(both.firm.unwrap().number, 2);
}

#[test]
fn update_commitment_state_takes_reported_state() {
    let mut client = MockExecutionClient::new();
    let mut executor = new_executor(&mut client, false);
    executor.update_commitment_state(CommitmentState {
        soft: None,
        firm: None,
    });
    assert!(executor.commitment_state().soft.is_none());
    assert!(executor.commitment_state().firm.is_none());
}

#[test]
fn finalize_drops_only_that_block() {
    let mut client = MockExecutionClient::new();
    let mut executor = new_executor(&mut client, false);
    let b = Block {
        number: 3,
        hash: vec![3],
        parent_block_hash: vec![2],
        timestamp: None,
    };
    executor.record_executed_block(vec![1], b.clone());
    executor.record_executed_block(vec![2], b.clone());
    executor.record_executed_block(vec![1], b);
    assert_eq!(executor.executed_block_count(), 2);
    executor.finalize_executed_block(&vec![1]);
    assert_eq!(executor.executed_block_count(), 1);
    assert!(executor.executed_block(&vec![1]).is_none());
    assert!(executor.executed_block(&vec![2]).is_some());
    executor.finalize_executed_block(&vec![9]);
    assert_eq!(executor.executed_block_count(), 1);
}

#[test]
fn executor_keeps_its_chain_id() {
    let mut client = MockExecutionClient::new();
    let executor = new_executor(&mut client, false);
    assert_eq!(executor.chain_id(), &b"test".to_vec());
}
