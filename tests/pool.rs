use std::cell::Cell;
use std::rc::Rc;
use std::sync::Arc;
use thread_pool::pool::{worker_count, DEFAULT_NUM_THREADS};
use thread_pool::sync_queue::spmc::Receiver;
use thread_pool::{Executor, SyncQueue, ThreadPool};

type Job = Box<dyn FnOnce()>;
type Worker = Receiver<Job, Arc<SyncQueue<Job>>>;

/// Runs each worker in turn until no job is left; a worker whose queue is
/// closed and drained has finished.
fn run_until_idle(workers: &[Worker]) {
    loop {
        let mut ran = false;
        for w in workers {
            if let Some(Ok(job)) = w.try_recv() {
                job();
                ran = true;
            }
        }
        if !ran {
            return;
        }
    }
}

fn finished(w: &Worker) -> bool {
    w.queue().is_closed()
}

fn counting_job(counter: &Rc<Cell<usize>>) -> Job {
    let counter = counter.clone();
    Box::new(move || counter.set(counter.get() + 1))
}

#[test]
fn worker_count_defaults_to_four() {
    assert_eq!(DEFAULT_NUM_THREADS, 4);
    assert_eq!(worker_count(None), 4);
    assert_eq!(worker_count(Some(0)), 4);
    assert_eq!(worker_count(Some(1)), 1);
    assert_eq!(worker_count(Some(12)), 12);
}

#[test]
fn pool_runs_every_preloaded_job() {
    let queue: Arc<SyncQueue<Job>> = Arc::new(SyncQueue::new());
    let counter = Rc::new(Cell::new(0));
    for _ in 0..100 {
        queue.push(counting_job(&counter)).ok().unwrap();
    }
    let pool = ThreadPool::from_jobs_iter(Receiver::from_queue(queue.clone()), Some(4), |rx| rx);
    assert!(!pool.is_finished(finished));
    let workers = pool.into_workers();
    assert_eq!(workers.len(), 4);
    run_until_idle(&workers);
    assert_eq!(counter.get(), 100);
    assert!(queue.close().unwrap().is_empty());
    let pool = ThreadPool::from_jobs_iter(Receiver::from_queue(queue), Some(4), |rx| rx);
    assert!(pool.is_finished(finished));
}

#[test]
fn pool_size_follows_detected_parallelism() {
    let pool = ThreadPool::from_jobs_iter(0u8, Some(3), |_q: u8| true);
    assert!(pool.is_finished(|done: &bool| *done));
    assert_eq!(pool.into_workers(), vec![true, true, true]);
    let pool = ThreadPool::from_jobs_iter(5u8, None, |q: u8| q);
    assert_eq!(pool.into_workers(), vec![5, 5, 5, 5]);
}

#[test]
fn pool_not_finished_while_one_worker_runs() {
    let pool = ThreadPool::from_jobs_iter((), Some(3), |_q: ()| Cell::new(true));
    let workers = pool.into_workers();
    workers[1].set(false);
    let pool = ThreadPool::from_jobs_iter(0usize, Some(3), |_q| 0usize);
    assert!(!pool.is_finished(|i: &usize| workers[*i + 1].get()));
    assert!(pool.is_finished(|i: &usize| workers[*i].get()));
}

#[test]
fn executor_without_jobs_tears_down() {
    let mut exec: Executor<Job, Worker> = Executor::unresumed();
    assert!(!exec.is_started());
    let workers = std::cell::RefCell::new(Vec::new());
    exec.start(Some(4), |rx: Worker| {
        workers.borrow_mut().push(rx.clone());
        rx
    });
    assert!(exec.is_started());
    let workers = workers.into_inner();
    assert_eq!(workers.len(), 4);
    assert!(workers.iter().all(|w| w.try_recv().is_none()));
    assert!(exec.close().unwrap().is_empty());
    drop(exec);
    assert!(workers.iter().all(|w| matches!(w.try_recv(), Some(Err(_)))));
    assert!(workers.iter().all(finished));
}

#[test]
fn executor_start_twice_keeps_first_pool() {
    let starts = Cell::new(0);
    let mut exec: Executor<Job, Worker> = Executor::unresumed();
    for _ in 0..2 {
        exec.start(Some(3), |rx| {
            starts.set(starts.get() + 1);
            rx
        });
    }
    assert_eq!(starts.get(), 3);
    exec.close().unwrap();
}

#[test]
fn executor_runs_jobs_sent_before_start() {
    let counter = Rc::new(Cell::new(0));
    let mut exec: Executor<Job, Worker> = Executor::unresumed();
    for _ in 0..10 {
        exec.sender().send(counting_job(&counter)).ok().unwrap();
    }
    let workers = std::cell::RefCell::new(Vec::new());
    exec.start(None, |rx: Worker| {
        workers.borrow_mut().push(rx.clone());
        rx
    });
    let workers = workers.into_inner();
    assert_eq!(workers.len(), 4);
    run_until_idle(&workers);
    assert_eq!(counter.get(), 10);
    assert!(exec.close().unwrap().is_empty());
    assert!(workers.iter().all(finished));
}

#[test]
fn executor_close_hands_back_unrun_jobs() {
    let counter = Rc::new(Cell::new(0));
    let exec: Executor<Job, Worker> = Executor::unresumed();
    exec.sender().send(counting_job(&counter)).ok().unwrap();
    exec.sender().send(counting_job(&counter)).ok().unwrap();
    let left = exec.close().unwrap();
    assert_eq!(left.len(), 2);
    assert!(exec.close().is_err());
    assert!(exec.sender().send(counting_job(&counter)).is_err());
    assert_eq!(counter.get(), 0);
}
