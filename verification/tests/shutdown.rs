use std::sync::atomic::{AtomicBool, Ordering};
use tetra::context::{aggregate, State};
use tetra::gateway::send_shutdown;
use tokio::runtime::Runtime;
use twilight_gateway::error::ChannelErrorType;
use twilight_gateway::{Intents, Shard, ShardId};
use twilight_http::Client;
use twilight_model::id::Id;

fn runtime() -> Runtime {
    tokio::runtime::Builder::new_current_thread().build().unwrap()
}

fn shards(count: u32) -> Vec<Shard> {
    (0..count)
        .map(|number| Shard::new(ShardId::new(number, count), "token".to_owned(), Intents::empty()))
        .collect()
}

fn state_over(shards: &[Shard]) -> State {
    State {
        client: Client::new("token".to_owned()),
        senders: shards.iter().map(Shard::sender).collect(),
        app_id: Id::new(1),
        shutdown: AtomicBool::new(false),
    }
}

#[test]
fn aggregate_of_nothing_is_success() {
    assert_eq!(aggregate::<u32>(vec![]), Ok(()));
}

#[test]
fn aggregate_of_successes_is_success() {
    assert_eq!(aggregate::<u32>(vec![Ok(()), Ok(()), Ok(())]), Ok(()));
}

#[test]
fn aggregate_keeps_exactly_the_failures_in_order() {
    let attempts = vec![Ok(()), Err("second"), Ok(()), Err("fourth"), Ok(())];
    assert_eq!(aggregate(attempts), Err(vec!["second", "fourth"]));
}

#[test]
fn aggregate_keeps_equal_failures_apart() {
    assert_eq!(aggregate(vec![Err(1), Err(1), Ok(()), Err(1)]), Err(vec![1, 1, 1]));
}

#[test]
fn aggregate_of_a_single_failure() {
    assert_eq!(aggregate(vec![Err('x')]), Err(vec!['x']));
}

#[test]
fn first_shutdown_closes_every_channel() {
    let runtime = runtime();
    let _guard = runtime.enter();
    let shards = shards(3);
    let state = state_over(&shards);

    assert!(!state.is_shutting_down());
    assert!(state.send_shutdown().is_ok());
    assert!(state.is_shutting_down());
    assert!(state.shutdown.load(Ordering::Acquire));
}

#[test]
fn shutdown_is_idempotent() {
    let runtime = runtime();
    let _guard = runtime.enter();
    let shards = shards(2);
    let state = state_over(&shards);

    for _ in 0..5 {
        assert!(state.send_shutdown().is_ok());
        assert!(state.is_shutting_down());
    }
}

#[test]
fn only_the_first_caller_finds_the_flag_down() {
    let runtime = runtime();
    let _guard = runtime.enter();
    let shards = shards(1);
    let state = state_over(&shards);

    let found: Vec<bool> = (0..8).map(|_| state.raise_shutdown()).collect();
    assert_eq!(found, vec![false, true, true, true, true, true, true, true]);
    assert!(state.is_shutting_down());
}

#[test]
fn a_round_attempts_every_channel_or_none() {
    let runtime = runtime();
    let _guard = runtime.enter();
    let shards = shards(4);
    let state = state_over(&shards);

    assert_eq!(state.shutdown_round(true).len(), 0);
    assert_eq!(state.shutdown_round(false).len(), 4);
    assert_eq!(state.close_channels().len(), 4);
}

#[test]
fn partial_failure_reports_exactly_the_failed_channels() {
    let runtime = runtime();
    let _guard = runtime.enter();
    let mut shards = shards(5);
    let state = state_over(&shards);
    // Dropping a shard closes its channel.
    shards.remove(3);
    shards.remove(1);

    let attempts = state.close_channels();
    let outcome: Vec<bool> = attempts.iter().map(Result::is_ok).collect();
    assert_eq!(outcome, vec![true, false, true, false, true]);

    let errors = state.send_shutdown().unwrap_err();
    assert_eq!(errors.len(), 2);
    for error in &errors {
        assert!(matches!(error.kind(), ChannelErrorType::Closed));
    }
    assert!(state.is_shutting_down());
}

#[test]
fn failures_are_reported_once() {
    let runtime = runtime();
    let _guard = runtime.enter();
    let shards = shards(2);
    let state = state_over(&shards);
    drop(shards);

    assert_eq!(state.send_shutdown().unwrap_err().len(), 2);
    // The flag is up now: later callers close nothing and succeed.
    assert!(state.send_shutdown().is_ok());
    assert!(send_shutdown(&state).is_ok());
}

#[test]
fn shutdown_without_channels_succeeds() {
    let state = state_over(&[]);
    assert!(send_shutdown(&state).is_ok());
    assert!(state.is_shutting_down());
    assert_eq!(state.close_channels().len(), 0);
}

#[test]
fn free_function_shuts_down_like_the_method() {
    let runtime = runtime();
    let _guard = runtime.enter();
    let mut shards = shards(3);
    let state = state_over(&shards);
    shards.pop();

    assert_eq!(send_shutdown(&state).unwrap_err().len(), 1);
    assert!(state.is_shutting_down());
}

#[test]
fn concurrent_callers_share_one_round() {
    let runtime = tokio::runtime::Builder::new_multi_thread().worker_threads(4).build().unwrap();
    let _guard = runtime.enter();
    let shards = shards(3);
    let state = std::sync::Arc::new(state_over(&shards));

    let callers: Vec<_> = (0..32)
        .map(|_| {
            let state = state.clone();
            runtime.spawn(async move {
                let found = state.raise_shutdown();
                (found, state.shutdown_round(found).len())
            })
        })
        .collect();
    let rounds: Vec<(bool, usize)> =
        callers.into_iter().map(|caller| runtime.block_on(caller).unwrap()).collect();

    assert_eq!(rounds.len(), 32);
    assert_eq!(rounds.iter().filter(|(found, _)| !found).count(), 1);
    assert_eq!(rounds.iter().map(|(_, attempts)| attempts).sum::<usize>(), 3);
    assert!(state.is_shutting_down());
}

#[test]
fn concurrent_shutdowns_all_return() {
    let runtime = tokio::runtime::Builder::new_multi_thread().worker_threads(4).build().unwrap();
    let _guard = runtime.enter();
    let shards = shards(3);
    let state = std::sync::Arc::new(state_over(&shards));

    let callers: Vec<_> = (0..16)
        .map(|_| {
            let state = state.clone();
            runtime.spawn(async move { state.send_shutdown().is_ok() })
        })
        .collect();
    for caller in callers {
        assert!(runtime.block_on(caller).unwrap());
    }
    assert!(state.is_shutting_down());
}
