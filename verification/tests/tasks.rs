use dearrow_browser::tasks::{ATMControlMessage, ATMMessage, AsyncTaskManager, AsyncTaskResult, AsyncTaskState, ManagerEffect, ManagerWarning, TaskCounts};

fn new_task(m: &mut AsyncTaskManager, name: &str) -> usize {
    let u = m.update(ATMMessage::ControlContextRequest(ATMControlMessage::NewTask { name: name.to_string() }));
    assert!(u.rerender);
    match u.effect {
        ManagerEffect::StartTask { id } => id,
        other => panic!("unexpected effect {other:?}"),
    }
}

fn states(m: &AsyncTaskManager) -> Vec<(String, AsyncTaskState)> {
    m.task_list().tasks.iter().map(|t| (t.name.clone(), t.state)).collect()
}

#[test]
fn is_success_reads_the_state() {
    assert_eq!(AsyncTaskState::Pending {}.is_success(), None);
    assert_eq!(AsyncTaskState::AutoDismiss { success: true }.is_success(), Some(true));
    assert_eq!(AsyncTaskState::ManualDismiss { success: false }.is_success(), Some(false));
    assert_eq!(AsyncTaskState::DismissOrRetry { success: true }.is_success(), Some(true));
}

#[test]
fn tasks_are_listed_in_submission_order() {
    let mut m = AsyncTaskManager::new();
    let a = new_task(&mut m, "a");
    let b = new_task(&mut m, "b");
    assert_ne!(a, b);
    assert_eq!(states(&m), vec![("a".to_string(), AsyncTaskState::Pending {}), ("b".to_string(), AsyncTaskState::Pending {})]);
    let c = m.task_list().count();
    assert_eq!(c, TaskCounts { pending: 2, success: 0, failed: 0, dismissable: 0, retry: 0 });
}

#[test]
fn finished_tasks_take_their_result() {
    let mut m = AsyncTaskManager::new();
    let a = new_task(&mut m, "a");
    let b = new_task(&mut m, "b");
    let u = m.update(ATMMessage::TaskUpdate { id: a, result: AsyncTaskResult::AutoDismiss { success: true } });
    assert!(u.rerender);
    assert!(matches!(u.effect, ManagerEffect::ScheduleAutoDismiss { id } if id == a));
    let u = m.update(ATMMessage::TaskUpdate { id: b, result: AsyncTaskResult::DismissOrRetry { success: false } });
    assert!(matches!(u.effect, ManagerEffect::Nothing));
    let c = m.task_list().count();
    assert_eq!(c, TaskCounts { pending: 0, success: 1, failed: 1, dismissable: 1, retry: 1 });
    // a second result for the same task is refused
    let u = m.update(ATMMessage::TaskUpdate { id: a, result: AsyncTaskResult::ManualDismiss { success: false } });
    assert!(!u.rerender);
    assert!(matches!(u.effect, ManagerEffect::Warn(ManagerWarning::UpdateNotPending { id }) if id == a));
}

#[test]
fn auto_dismiss_removes_the_task() {
    let mut m = AsyncTaskManager::new();
    let a = new_task(&mut m, "a");
    let u = m.update(ATMMessage::AutoDismiss { id: a });
    assert!(matches!(u.effect, ManagerEffect::Warn(ManagerWarning::AutoDismissNotAutoDismissable { .. })));
    m.update(ATMMessage::TaskUpdate { id: a, result: AsyncTaskResult::AutoDismiss { success: true } });
    let u = m.update(ATMMessage::AutoDismiss { id: a });
    match u.effect {
        ManagerEffect::Removed { ids } => assert_eq!(ids, vec![a]),
        other => panic!("unexpected effect {other:?}"),
    }
    assert!(m.task_list().tasks.is_empty());
    let u = m.update(ATMMessage::AutoDismiss { id: a });
    assert!(matches!(u.effect, ManagerEffect::Warn(ManagerWarning::AutoDismissNonExistent { .. })));
}

#[test]
fn dismiss_and_retry() {
    let mut m = AsyncTaskManager::new();
    let a = new_task(&mut m, "a");
    let u = m.update(ATMMessage::ControlContextRequest(ATMControlMessage::DismissTask { id: a }));
    assert!(matches!(u.effect, ManagerEffect::Warn(ManagerWarning::DismissNotDismissable { .. })));
    let u = m.update(ATMMessage::ControlContextRequest(ATMControlMessage::RetryTask { id: a }));
    assert!(matches!(u.effect, ManagerEffect::Warn(ManagerWarning::RetryNotRetryable { .. })));
    m.update(ATMMessage::TaskUpdate { id: a, result: AsyncTaskResult::DismissOrRetry { success: false } });
    let u = m.update(ATMMessage::ControlContextRequest(ATMControlMessage::RetryTask { id: a }));
    assert!(matches!(u.effect, ManagerEffect::RetryTask { id } if id == a));
    assert_eq!(states(&m), vec![("a".to_string(), AsyncTaskState::Pending {})]);
    m.update(ATMMessage::TaskUpdate { id: a, result: AsyncTaskResult::ManualDismiss { success: true } });
    let u = m.update(ATMMessage::ControlContextRequest(ATMControlMessage::DismissTask { id: a }));
    assert!(matches!(u.effect, ManagerEffect::Removed { .. }));
    let u = m.update(ATMMessage::ControlContextRequest(ATMControlMessage::DismissTask { id: a }));
    assert!(matches!(u.effect, ManagerEffect::Warn(ManagerWarning::DismissNonExistent { .. })));
    let u = m.update(ATMMessage::ControlContextRequest(ATMControlMessage::RetryTask { id: a }));
    assert!(matches!(u.effect, ManagerEffect::Warn(ManagerWarning::RetryNonExistent { .. })));
    let u = m.update(ATMMessage::TaskUpdate { id: a, result: AsyncTaskResult::ManualDismiss { success: true } });
    assert!(matches!(u.effect, ManagerEffect::Warn(ManagerWarning::UpdateNonExistent { .. })));
}

#[test]
fn dismiss_all_keeps_only_undismissable_tasks() {
    let mut m = AsyncTaskManager::new();
    let a = new_task(&mut m, "a");
    let b = new_task(&mut m, "b");
    let c = new_task(&mut m, "c");
    let d = new_task(&mut m, "d");
    m.update(ATMMessage::TaskUpdate { id: a, result: AsyncTaskResult::ManualDismiss { success: true } });
    m.update(ATMMessage::TaskUpdate { id: c, result: AsyncTaskResult::DismissOrRetry { success: false } });
    m.update(ATMMessage::TaskUpdate { id: d, result: AsyncTaskResult::AutoDismiss { success: true } });
    let u = m.update(ATMMessage::ControlContextRequest(ATMControlMessage::DismissAll {}));
    match u.effect {
        ManagerEffect::Removed { ids } => assert_eq!(ids, vec![a, c]),
        other => panic!("unexpected effect {other:?}"),
    }
    let left: Vec<usize> = m.task_list().tasks.iter().map(|t| t.id).collect();
    assert_eq!(left, vec![b, d]);
    // nothing left to dismiss
    let u = m.update(ATMMessage::ControlContextRequest(ATMControlMessage::DismissAll {}));
    assert!(!u.rerender);
    assert!(matches!(u.effect, ManagerEffect::Nothing));
}

#[test]
fn counts_partition_the_tasks() {
    let mut m = AsyncTaskManager::new();
    let ids: Vec<usize> = (0..6).map(|i| new_task(&mut m, &format!("t{i}"))).collect();
    m.update(ATMMessage::TaskUpdate { id: ids[0], result: AsyncTaskResult::AutoDismiss { success: false } });
    m.update(ATMMessage::TaskUpdate { id: ids[1], result: AsyncTaskResult::ManualDismiss { success: true } });
    m.update(ATMMessage::TaskUpdate { id: ids[2], result: AsyncTaskResult::DismissOrRetry { success: true } });
    let c = m.task_list().count();
    assert_eq!(c.pending + c.success + c.failed, 6);
    assert!(c.retry <= c.dismissable && c.dismissable <= c.success + c.failed);
    assert_eq!(TaskCounts::default(), TaskCounts { pending: 0, success: 0, failed: 0, dismissable: 0, retry: 0 });
}
