use vhost_user_fs::{
    ChainAction, ChainRun, Error, EventAction, EventRun, IoError, NextChain, PoolAction, PoolRun,
    SerialAction, SerialRun, VhostUserFsBackend,
};

type Backend = VhostUserFsBackend<(), u32, (), (), (), ()>;

fn handled(event_idx: bool, len: usize) -> ChainRun {
    ChainRun::process_message(5, event_idx)
        .reader_created(Ok(()))
        .writer_created(Ok(()))
        .message_handled(Ok(len))
}

#[test]
fn chain_is_served_in_order() {
    let run = ChainRun::process_message(5, false);
    assert_eq!(run.head_index, 5);
    assert!(matches!(run.action, ChainAction::CreateReader));
    let run = run.reader_created(Ok(()));
    assert!(matches!(run.action, ChainAction::CreateWriter));
    let run = run.writer_created(Ok(()));
    assert!(matches!(run.action, ChainAction::HandleMessage));
    let run = run.message_handled(Ok(80));
    assert!(matches!(run.action, ChainAction::AddUsed { len: 80 }));
    let run = run.used_added();
    assert!(matches!(run.action, ChainAction::SignalUsedQueue));
    let run = run.used_queue_signalled();
    assert!(matches!(run.action, ChainAction::Finished));
    assert_eq!(run.head_index, 5);
}

#[test]
fn event_idx_asks_before_notifying() {
    let run = handled(true, 1).used_added();
    assert!(matches!(run.action, ChainAction::CheckNotification));
    let run = run.notification_checked(Some(true));
    assert!(matches!(run.action, ChainAction::SignalUsedQueue));
}

#[test]
fn no_notification_without_need() {
    let run = handled(true, 1).used_added().notification_checked(Some(false));
    assert!(matches!(run.action, ChainAction::Finished));
}

#[test]
fn notification_if_the_need_is_unknown() {
    let run = handled(true, 1).used_added().notification_checked(None);
    assert!(matches!(run.action, ChainAction::SignalUsedQueue));
}

#[test]
fn largest_used_length() {
    let run = handled(false, u32::MAX as usize);
    assert!(matches!(run.action, ChainAction::AddUsed { len: u32::MAX }));
}

fn exit_text(run: ChainRun) -> String {
    match run.action {
        ChainAction::Exit(error) => error.display(),
        other => panic!("unexpected action {:?}", other),
    }
}

#[test]
fn failures_end_the_process() {
    let start = ChainRun::process_message(1, true);
    assert_eq!(
        exit_text(start.reader_created(Err("bad descriptor".to_string()))),
        "Failed to create a queue reader: bad descriptor"
    );
    let start = ChainRun::process_message(1, true).reader_created(Ok(()));
    assert_eq!(
        exit_text(start.writer_created(Err("no room".to_string()))),
        "Failed to create a queue writer: no room"
    );
    let start = ChainRun::process_message(1, true).reader_created(Ok(())).writer_created(Ok(()));
    assert_eq!(
        exit_text(start.message_handled(Err("decode".to_string()))),
        "Failed to handle an incoming request: decode"
    );
}

fn configured(event_idx: bool) -> Backend {
    let mut backend = Backend::new(()).unwrap();
    backend.update_memory(1).unwrap();
    backend.set_event_idx(event_idx);
    backend
}

#[test]
fn queues_need_memory() {
    let backend = Backend::new(()).unwrap();
    let run = backend.thread.process_queue_serial();
    assert!(matches!(run.action, SerialAction::Finished(Err(Error::NoMemoryConfigured))));
    let run = backend.thread.process_queue_pool();
    assert!(matches!(run.action, PoolAction::Finished(Err(Error::NoMemoryConfigured))));
}

#[test]
fn serial_queue_serves_chains_in_order() {
    let run = configured(true).thread.process_queue_serial();
    assert!(matches!(run.action, SerialAction::CollectChains));
    let mut run = run.chains_collected(Some(vec![9, 4, 7]));
    let mut served = Vec::new();
    loop {
        match run.action {
            SerialAction::ServeChain { position } => {
                let chain = run.chain();
                assert!(chain.event_idx);
                assert!(matches!(chain.action, ChainAction::CreateReader));
                served.push((position, chain.head_index));
                run = run.chain_served();
            }
            SerialAction::Finished(result) => {
                assert!(result.unwrap());
                break;
            }
            SerialAction::CollectChains => panic!("chains were collected already"),
        }
    }
    assert_eq!(served, vec![(0, 9), (1, 4), (2, 7)]);
}

#[test]
fn serial_queue_without_chains() {
    let run = configured(false).thread.process_queue_serial().chains_collected(Some(vec![]));
    assert!(matches!(run.action, SerialAction::Finished(Ok(false))));
}

#[test]
fn serial_queue_that_cannot_be_iterated() {
    let run: SerialRun = configured(false).thread.process_queue_serial().chains_collected(None);
    assert!(matches!(run.action, SerialAction::Finished(Err(Error::IterateQueue))));
}

// Serve a chain, and return what is put into the used ring, or `None` if the process ends.
fn serve(mut chain: ChainRun, handled: Result<usize, String>) -> Option<Vec<(u16, u32)>> {
    let mut used = Vec::new();
    loop {
        chain = match chain.action {
            ChainAction::CreateReader => chain.reader_created(Ok(())),
            ChainAction::CreateWriter => chain.writer_created(Ok(())),
            ChainAction::HandleMessage => chain.message_handled(handled.clone()),
            ChainAction::AddUsed { len } => {
                used.push((chain.head_index, len));
                chain.used_added()
            }
            ChainAction::CheckNotification => chain.notification_checked(Some(false)),
            ChainAction::SignalUsedQueue => chain.used_queue_signalled(),
            ChainAction::Finished => return Some(used),
            ChainAction::Exit(_) => return None,
        };
    }
}

// Serve a queue serially, and return the heads that are served and what is put into the used ring.
fn serve_serially(
    heads: Vec<u16>,
    handled: Vec<Result<usize, String>>,
) -> (Vec<u16>, Vec<(u16, u32)>) {
    let mut run = configured(true).thread.process_queue_serial().chains_collected(Some(heads));
    let mut served = Vec::new();
    let mut used = Vec::new();
    while let SerialAction::ServeChain { position } = run.action {
        let chain = run.chain();
        served.push(chain.head_index);
        match serve(chain, handled[position].clone()) {
            Some(entries) => used.extend(entries),
            None => break,
        }
        run = run.chain_served();
    }
    (served, used)
}

#[test]
fn serial_queue_returns_every_chain_in_order() {
    let (served, used) = serve_serially(vec![9, 4, 7], vec![Ok(80), Ok(0), Ok(16)]);
    assert_eq!(served, vec![9, 4, 7]);
    assert_eq!(used, vec![(9, 80), (4, 0), (7, 16)]);
}

#[test]
fn serial_queue_stops_at_a_failure() {
    let (served, used) =
        serve_serially(vec![9, 4, 7], vec![Ok(80), Err("decode".to_string()), Ok(16)]);
    assert_eq!(served, vec![9, 4]);
    assert_eq!(used, vec![(9, 80)]);
}

#[test]
fn pool_queue_returns_every_chain() {
    let mut run = configured(false).thread.process_queue_pool();
    let mut workers = Vec::new();
    for head_index in [3, 1, 2] {
        run = run.chain_fetched(NextChain::Available { head_index });
        workers.push(run.worker());
        run = run.worker_spawned();
    }
    let mut used = Vec::new();
    for worker in workers.into_iter().rev() {
        let len = 10 * worker.head_index as usize;
        used.extend(serve(worker, Ok(len)).unwrap());
    }
    used.sort();
    assert_eq!(used, vec![(1, 10), (2, 20), (3, 30)]);
}

#[test]
fn pool_worker_whose_request_fails_returns_nothing() {
    let run = configured(false)
        .thread
        .process_queue_pool()
        .chain_fetched(NextChain::Available { head_index: 3 });
    assert_eq!(serve(run.worker(), Err("decode".to_string())), None);
}

#[test]
fn pool_queue_hands_out_every_chain() {
    let mut run: PoolRun = configured(false).thread.process_queue_pool();
    for head_index in [3, 1, 2] {
        assert!(matches!(run.action, PoolAction::FetchChain));
        run = run.chain_fetched(NextChain::Available { head_index });
        assert!(matches!(run.action, PoolAction::SpawnWorker { .. }));
        let chain = run.worker();
        assert_eq!(chain.head_index, head_index);
        assert!(!chain.event_idx);
        assert!(matches!(chain.action, ChainAction::CreateReader));
        run = run.worker_spawned();
    }
    let run = run.chain_fetched(NextChain::Empty);
    assert!(matches!(run.action, PoolAction::Finished(Ok(true))));
}

#[test]
fn pool_queue_without_chains() {
    let run = configured(true).thread.process_queue_pool().chain_fetched(NextChain::Empty);
    assert!(matches!(run.action, PoolAction::Finished(Ok(false))));
}

#[test]
fn pool_queue_that_cannot_be_iterated_any_more() {
    let run = configured(true)
        .thread
        .process_queue_pool()
        .chain_fetched(NextChain::Available { head_index: 1 })
        .worker_spawned()
        .chain_fetched(NextChain::Failed);
    assert!(matches!(run.action, PoolAction::Finished(Err(Error::IterateQueue))));
}

#[test]
fn event_idx_processes_until_idle() {
    let mut run = EventRun::start(1, false, true).unwrap();
    let rounds = [
        (Ok(true), true),
        (Err(Error::IterateQueue), true),
        (Err(Error::NoMemoryConfigured), false),
    ];
    for (processed, more) in rounds {
        assert!(matches!(run.action, EventAction::DisableNotification));
        run = run.notification_disabled();
        assert!(matches!(run.action, EventAction::ProcessQueue));
        run = run.queue_processed(processed);
        assert!(matches!(run.action, EventAction::EnableNotification));
        run = run.notification_enabled(more);
    }
    assert!(matches!(run.action, EventAction::Finished(Ok(()))));
    assert_eq!(run.queue, 1);
}

#[test]
fn without_event_idx_the_queue_is_processed_once() {
    let run = EventRun::start(0, true, false).unwrap();
    assert!(matches!(run.action, EventAction::ProcessQueue));
    let run = run.queue_processed(Ok(false));
    assert!(matches!(run.action, EventAction::Finished(Ok(()))));
    let run = EventRun::start(0, true, false).unwrap().queue_processed(Err(Error::IterateQueue));
    assert!(matches!(
        run.action,
        EventAction::Finished(Err(IoError::Backend(Error::IterateQueue)))
    ));
}

#[test]
fn unknown_events_do_not_start() {
    assert!(matches!(
        EventRun::start(2, true, false),
        Err(IoError::Backend(Error::HandleEventUnknownEvent))
    ));
}
