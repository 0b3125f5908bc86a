use netssh_core::semaphore::{SemaphoreError, SemaphoreState, TimeoutSemaphore};
use std::time::{Duration, Instant};

#[test]
fn test_semaphore_creation() {
    let sem = TimeoutSemaphore::new(5);
    assert_eq!(sem.available_permits().unwrap(), 5);
    assert_eq!(sem.max_permits().unwrap(), 5);
}

#[test]
fn test_semaphore_acquire_release() {
    let sem = TimeoutSemaphore::new(2);

    let permit1 = sem.acquire().unwrap();
    assert_eq!(sem.available_permits().unwrap(), 1);

    let permit2 = sem.acquire().unwrap();
    assert_eq!(sem.available_permits().unwrap(), 0);

    drop(permit1);
    assert_eq!(sem.available_permits().unwrap(), 1);

    drop(permit2);
    assert_eq!(sem.available_permits().unwrap(), 2);
}

#[test]
fn test_semaphore_try_acquire() {
    let sem = TimeoutSemaphore::new(1);

    let permit = sem.try_acquire().unwrap();
    assert_eq!(sem.available_permits().unwrap(), 0);

    assert!(matches!(sem.try_acquire(), Err(SemaphoreError::Timeout)));

    drop(permit);
    assert_eq!(sem.available_permits().unwrap(), 1);

    let _ = sem.try_acquire().unwrap();
}

#[test]
fn test_semaphore_timeout() {
    let sem = TimeoutSemaphore::new(1);

    let permit = sem.acquire().unwrap();

    let start = Instant::now();
    let result = sem.acquire_timeout(Some(Duration::from_millis(100)));
    let elapsed = start.elapsed();

    assert!(matches!(result, Err(SemaphoreError::Timeout)));

    assert!(elapsed >= Duration::from_millis(90));
    assert!(elapsed <= Duration::from_millis(200));

    drop(permit);

    let _ = sem.acquire_timeout(Some(Duration::from_millis(100))).unwrap();
}

#[test]
fn test_semaphore_close() {
    let sem = TimeoutSemaphore::new(5);

    let permit1 = sem.acquire().unwrap();
    let permit2 = sem.acquire().unwrap();
    assert_eq!(sem.available_permits().unwrap(), 3);

    sem.close();

    assert!(matches!(sem.try_acquire(), Err(SemaphoreError::Closed)));
    assert!(matches!(sem.acquire_timeout(Some(Duration::from_millis(10))), Err(SemaphoreError::Closed)));

    drop(permit1);
    drop(permit2);
}

#[test]
fn test_semaphore_add_remove_permits() {
    let sem = TimeoutSemaphore::new(2);
    assert_eq!(sem.max_permits().unwrap(), 2);
    assert_eq!(sem.available_permits().unwrap(), 2);

    sem.add_permits(3).unwrap();
    assert_eq!(sem.max_permits().unwrap(), 5);
    assert_eq!(sem.available_permits().unwrap(), 5);

    let permit1 = sem.acquire().unwrap();
    let permit2 = sem.acquire().unwrap();
    assert_eq!(sem.available_permits().unwrap(), 3);

    sem.remove_permits(2).unwrap();
    assert_eq!(sem.max_permits().unwrap(), 3);
    assert_eq!(sem.available_permits().unwrap(), 1);

    drop(permit1);
    drop(permit2);
    assert_eq!(sem.available_permits().unwrap(), 3);
}

#[test]
fn removing_more_permits_than_exist_leaves_none() {
    let sem = TimeoutSemaphore::new(2);
    sem.remove_permits(5).unwrap();
    assert_eq!(sem.max_permits().unwrap(), 0);
    assert_eq!(sem.available_permits().unwrap(), 0);
    assert!(matches!(sem.try_acquire(), Err(SemaphoreError::Timeout)));
}

#[test]
fn closed_semaphore_refuses_blocking_acquire() {
    let sem = TimeoutSemaphore::new(1);
    sem.close();
    assert!(matches!(sem.acquire(), Err(SemaphoreError::Closed)));
}

#[test]
fn state_counts_balance_without_removals() {
    let mut s = SemaphoreState::new(2);
    assert!(s.try_acquire().is_ok());
    assert!(s.try_acquire().is_ok());
    assert!(matches!(s.try_acquire(), Err(SemaphoreError::Timeout)));
    assert!(s.add_permits(1).is_ok());
    assert_eq!(s.max_permits, 3);
    assert_eq!(s.available() + s.held, s.max_permits);
    s.release();
    assert_eq!(s.available(), 2);
    assert_eq!(s.available() + s.held, s.max_permits);
    s.close();
    assert_eq!(s.max_permits, 3);
    assert!(matches!(s.try_acquire(), Err(SemaphoreError::Closed)));
}
