use rsocket_ffi::webworkers::{create_iroh_wasm_optimized_config, IrohWasmCapabilities, IrohWasmWebWorkersConfig};
use rsocket_ffi::worker_pool::{FrameDispatch, IrohWasmWorkerPool, PoolError};

fn pool_with(workers: usize, batch: usize) -> IrohWasmWorkerPool {
    let caps = IrohWasmCapabilities::from_probes(true, true, false, Some(8));
    let mut config = IrohWasmWebWorkersConfig::default_for(&caps, Some(8));
    config.webworkers_config.worker_count = workers;
    config.webworkers_config.batch_size = batch;
    IrohWasmWorkerPool::new(config)
}

#[test]
fn new_pool_is_idle() {
    let pool = pool_with(3, 10);
    assert_eq!(pool.get_worker_count(), 3);
    assert_eq!(pool.busy_worker_count(), 0);
    assert_eq!(pool.active_tasks(), 0);
    assert_eq!(pool.queued_task_count(), 0);
    assert_eq!(pool.total_tasks_processed(), 0);
    assert_eq!(pool.find_available_worker(), Some(0));
}

#[test]
fn frames_go_to_first_idle_worker_then_queue() {
    let mut pool = pool_with(2, 10);
    match pool.process_p2p_frame(vec![1, 2, 3]) {
        FrameDispatch::Assigned { worker_id, frame } => {
            assert_eq!(worker_id, 0);
            assert_eq!(frame, vec![1, 2, 3]);
        }
        FrameDispatch::Queued => panic!("expected an assignment"),
    }
    assert!(matches!(pool.process_p2p_frame(vec![4]), FrameDispatch::Assigned { worker_id: 1, .. }));
    assert!(matches!(pool.process_p2p_frame(vec![5]), FrameDispatch::Queued));
    assert_eq!(pool.active_tasks(), 2);
    assert_eq!(pool.queued_task_count(), 1);
    assert_eq!(pool.find_available_worker(), None);

    pool.complete_task(1);
    assert_eq!(pool.active_tasks(), 1);
    assert_eq!(pool.worker_tasks_processed(1), Some(1));
    assert_eq!(pool.worker_tasks_processed(0), Some(0));
    assert_eq!(pool.total_tasks_processed(), 1);
    assert!(matches!(pool.process_p2p_frame(vec![6]), FrameDispatch::Assigned { worker_id: 1, .. }));
}

#[test]
fn assign_then_complete_restores_busy_state() {
    let mut pool = pool_with(4, 10);
    assert!(pool.assign_task_to_worker(2).is_ok());
    assert_eq!(pool.busy_worker_count(), 1);
    assert_eq!(pool.find_available_worker(), Some(0));
    pool.complete_task(2);
    assert_eq!(pool.busy_worker_count(), 0);
    assert_eq!(pool.total_tasks_processed(), 1);
    assert_eq!(pool.estimated_bytes_sent(), 1024);
}

#[test]
fn invalid_worker_id_is_refused() {
    let mut pool = pool_with(2, 10);
    assert!(matches!(pool.assign_task_to_worker(2), Err(PoolError::InvalidWorkerId)));
    assert_eq!(pool.active_tasks(), 0);
    assert_eq!(pool.worker_tasks_processed(5), None);
}

#[test]
fn batches_split_frames_in_order() {
    let pool = pool_with(1, 2);
    assert_eq!(pool.batch_ranges(5), vec![(0, 2), (2, 4), (4, 5)]);
    assert_eq!(pool.batch_ranges(4), vec![(0, 2), (2, 4)]);
    assert_eq!(pool.batch_ranges(0), vec![]);
    let optimized = IrohWasmWorkerPool::new(create_iroh_wasm_optimized_config(
        &IrohWasmCapabilities::from_probes(false, false, false, None),
    ));
    assert_eq!(optimized.batch_ranges(151), vec![(0, 150), (150, 151)]);
    assert_eq!(optimized.get_worker_count(), 4);
}

#[test]
fn empty_pool_queues_everything() {
    let mut pool = pool_with(0, 1);
    assert!(matches!(pool.process_p2p_frame(vec![]), FrameDispatch::Queued));
    assert_eq!(pool.queued_task_count(), 1);
}

#[test]
fn frames_arriving_together_fill_workers_then_queue() {
    let mut pool = pool_with(2, 10);
    let res = pool.process_p2p_frames(vec![vec![1], vec![2], vec![3]]);
    assert_eq!(res.len(), 3);
    assert!(matches!(&res[0], FrameDispatch::Assigned { worker_id: 0, frame } if *frame == vec![1]));
    assert!(matches!(&res[1], FrameDispatch::Assigned { worker_id: 1, frame } if *frame == vec![2]));
    assert!(matches!(res[2], FrameDispatch::Queued));
    assert_eq!(pool.busy_worker_count() + pool.queued_task_count(), 3);
}
