use lark_relay::coordinator::{BatchAction, BatchCoordinator, BatchSummary};
use lark_relay::delivery::DeliveryOutcome;
use lark_relay::models::lark::{LarkElement, LarkMessage};
use lark_relay::models::miniflux::{MinifluxEntry, MinifluxWebhook};

fn webhook(feed: &str, titles: &[&str]) -> MinifluxWebhook {
    MinifluxWebhook {
        feed_title: feed.to_string(),
        entries: titles
            .iter()
            .map(|t| MinifluxEntry { title: t.to_string(), url: format!("https://x.test/{}", t) })
            .collect(),
    }
}

fn link_text(m: &LarkMessage) -> String {
    match &m.content.post.zh_cn.content[1][1] {
        LarkElement::A { text, .. } => text.clone(),
        _ => panic!("second line must end in a link"),
    }
}

/// Drives a batch against a downstream that answers each entry's attempts
/// from its own list; records every attempt as (batch, entry title).
fn drive(
    name: &str,
    hook: MinifluxWebhook,
    answers: &[Vec<DeliveryOutcome>],
    log: &mut Vec<(String, String)>,
) -> BatchSummary {
    let (mut c, mut action) = BatchCoordinator::start(hook);
    let mut entry = 0usize;
    let mut attempt = 0usize;
    loop {
        action = match action {
            BatchAction::AcquireLock => c.lock_acquired(),
            BatchAction::Send { message } | BatchAction::BackoffThenSend { message, .. } => {
                let title = link_text(&message);
                log.push((name.to_string(), title));
                let outcome = answers[entry][attempt].clone();
                let next = c.attempted(outcome);
                if matches!(next, BatchAction::BackoffThenSend { .. }) {
                    attempt += 1;
                } else {
                    entry += 1;
                    attempt = 0;
                }
                next
            }
            BatchAction::Respond { summary } => return summary,
        }
    }
}

#[test]
fn empty_batch_answers_without_the_lock() {
    let (_, action) = BatchCoordinator::start(webhook("F", &[]));
    match action {
        BatchAction::Respond { summary } => {
            assert_eq!(summary.success_count, 0);
            assert_eq!(summary.failed_count, 0);
            assert_eq!(summary.status_code(), 200);
            assert!(summary.all_delivered());
        }
        _ => panic!("an empty batch must answer at once"),
    }
}

#[test]
fn nonempty_batch_takes_the_lock_first() {
    let (_, action) = BatchCoordinator::start(webhook("F", &["a"]));
    assert!(matches!(action, BatchAction::AcquireLock));
}

#[test]
fn one_failing_entry_does_not_stop_the_batch() {
    let mut log = Vec::new();
    let answers = vec![
        vec![DeliveryOutcome::RateLimited, DeliveryOutcome::RateLimited, DeliveryOutcome::RateLimited],
        vec![DeliveryOutcome::Delivered],
        vec![DeliveryOutcome::RateLimited, DeliveryOutcome::Delivered],
    ];
    let s = drive("A", webhook("F", &["a", "b", "c"]), &answers, &mut log);
    assert_eq!(s.success_count, 2);
    assert_eq!(s.failed_count, 1);
    assert_eq!(s.status_code(), 500);
    assert!(!s.all_delivered());
    let titles: Vec<&str> = log.iter().map(|(_, t)| t.as_str()).collect();
    assert_eq!(titles, vec!["a", "a", "a", "b", "c", "c"]);
}

#[test]
fn all_delivered_answers_ok() {
    let mut log = Vec::new();
    let answers = vec![vec![DeliveryOutcome::Delivered], vec![DeliveryOutcome::Delivered]];
    let s = drive("A", webhook("F", &["a", "b"]), &answers, &mut log);
    assert_eq!(s.success_count, 2);
    assert_eq!(s.failed_count, 0);
    assert_eq!(s.status_code(), 200);
}

#[test]
fn batches_run_one_after_another_keep_input_order() {
    let mut log = Vec::new();
    let a = vec![vec![DeliveryOutcome::RateLimited, DeliveryOutcome::Delivered], vec![DeliveryOutcome::Delivered]];
    let b = vec![vec![DeliveryOutcome::Delivered]; 3];
    drive("A", webhook("F", &["a1", "a2"]), &a, &mut log);
    drive("B", webhook("G", &["b1", "b2", "b3"]), &b, &mut log);
    let batches: Vec<&str> = log.iter().map(|(n, _)| n.as_str()).collect();
    assert_eq!(batches, vec!["A", "A", "A", "B", "B", "B"]);
    let titles: Vec<&str> = log.iter().map(|(_, t)| t.as_str()).collect();
    assert_eq!(titles, vec!["a1", "a1", "a2", "b1", "b2", "b3"]);
}

#[test]
fn default_notification_is_an_empty_batch() {
    let hook = MinifluxWebhook::default();
    assert_eq!(hook.feed_title, "");
    assert!(hook.entries.is_empty());
    let (_, action) = BatchCoordinator::start(hook);
    assert!(matches!(action, BatchAction::Respond { summary: BatchSummary { success_count: 0, failed_count: 0 } }));
}

#[test]
fn single_entry_rate_limited_twice_then_delivered() {
    let mut log = Vec::new();
    let answers = vec![vec![
        DeliveryOutcome::RateLimited,
        DeliveryOutcome::RateLimited,
        DeliveryOutcome::Delivered,
    ]];
    let s = drive("A", webhook("F", &["e"]), &answers, &mut log);
    assert_eq!(log.len(), 3);
    assert!(log.iter().all(|(_, t)| t == "e"));
    assert_eq!((s.success_count, s.failed_count), (1, 0));
    assert_eq!(s.status_code(), 200);
}

#[test]
fn single_entry_always_rate_limited_answers_failure() {
    let mut log = Vec::new();
    let answers = vec![vec![DeliveryOutcome::RateLimited; 5]];
    let s = drive("A", webhook("F", &["e"]), &answers, &mut log);
    assert_eq!(log.len(), 3);
    assert_eq!((s.success_count, s.failed_count), (0, 1));
    assert_eq!(s.status_code(), 500);
}

#[test]
fn single_entry_server_error_answers_failure_at_once() {
    let mut log = Vec::new();
    let answers = vec![vec![DeliveryOutcome::Failed { detail: "status 500".to_string() }]];
    let s = drive("A", webhook("F", &["e"]), &answers, &mut log);
    assert_eq!(log.len(), 1);
    assert_eq!((s.success_count, s.failed_count), (0, 1));
}
