use std::cell::Cell;
use std::rc::Rc;

use my_server::connection::Handling;
use my_server::settings::{handling_for, threads, Http};
use my_server::thread_pool::{next_job, JobQueue, Message};
use my_server::tls::{build_acceptor, TlsSetupError};

/// Lets `workers` workers take turns on the queue until each has received
/// its terminate message; returns how many terminate messages were taken.
fn drain(queue: &mut JobQueue<Box<dyn FnOnce()>>, workers: usize) -> usize {
    let mut active = vec![true; workers];
    let mut terminated = 0;
    while active.iter().any(|a| *a) {
        for w in 0..workers {
            if !active[w] {
                continue;
            }
            match queue.pop() {
                Some(message) => match next_job(message) {
                    Some(job) => job(),
                    None => {
                        active[w] = false;
                        terminated += 1;
                    }
                },
                None => panic!("a worker would wait forever"),
            }
        }
    }
    terminated
}

#[test]
fn every_job_runs_once_for_any_pool_size() {
    for workers in [1usize, 2, 3, 8] {
        for k in [0usize, 1, 5, 17] {
            let counter = Rc::new(Cell::new(0usize));
            let mut queue: JobQueue<Box<dyn FnOnce()>> = JobQueue::new();
            for _ in 0..k {
                let c = counter.clone();
                queue.push(Message::NewJob(Box::new(move || c.set(c.get() + 1))));
            }
            queue.shutdown(workers);
            assert_eq!(queue.len(), k + workers);
            let terminated = drain(&mut queue, workers);
            assert_eq!(counter.get(), k);
            assert_eq!(terminated, workers);
            assert!(queue.is_empty());
        }
    }
}

#[test]
fn jobs_come_out_in_order() {
    let order = Rc::new(std::cell::RefCell::new(Vec::new()));
    let mut queue: JobQueue<Box<dyn FnOnce()>> = JobQueue::new();
    for i in 0..4 {
        let o = order.clone();
        queue.push(Message::NewJob(Box::new(move || o.borrow_mut().push(i))));
    }
    queue.shutdown(1);
    assert_eq!(drain(&mut queue, 1), 1);
    assert_eq!(*order.borrow(), vec![0, 1, 2, 3]);
}

#[test]
fn shutdown_sends_one_terminate_per_worker() {
    let mut queue: JobQueue<u32> = JobQueue::new();
    queue.push(Message::NewJob(1));
    queue.shutdown(3);
    assert_eq!(queue.len(), 4);
    assert!(matches!(queue.pop(), Some(Message::NewJob(1))));
    for _ in 0..3 {
        assert!(matches!(queue.pop(), Some(Message::Terminate)));
    }
    assert!(queue.pop().is_none());
}

#[test]
fn empty_queue_hands_out_nothing() {
    let mut queue: JobQueue<u32> = JobQueue::new();
    assert!(queue.is_empty());
    assert!(queue.pop().is_none());
    queue.shutdown(0);
    assert!(queue.is_empty());
}

#[test]
fn worker_runs_jobs_and_leaves_on_terminate() {
    assert_eq!(next_job(Message::NewJob(7u32)), Some(7));
    assert_eq!(next_job::<u32>(Message::Terminate), None);
}

#[test]
fn default_thread_count() {
    assert_eq!(threads(), 4);
}

#[test]
fn handling_follows_redirect_setting() {
    assert!(matches!(handling_for(&None), Handling::Resolve));
    match handling_for(&Some("https://example.org".to_string())) {
        Handling::Redirect { destination } => assert_eq!(destination, "https://example.org"),
        Handling::Resolve => panic!("a redirect destination is configured"),
    }
    let http = Http { port: 80, redirect: None, threads: 2 };
    assert!(matches!(http.handling(), Handling::Resolve));
}

#[test]
fn garbage_identity_is_rejected() {
    match build_acceptor(b"not an archive", "secret") {
        Err(TlsSetupError::Identity(_)) => {}
        _ => panic!("garbage cannot be parsed as PKCS #12"),
    }
}

#[test]
fn password_with_nul_is_refused() {
    assert!(matches!(build_acceptor(b"not an archive", "se\0cret"), Err(TlsSetupError::Password)));
    assert!(matches!(build_acceptor(b"", "\0"), Err(TlsSetupError::Password)));
}
