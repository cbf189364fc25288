use tgrc::chat::MessageContent;
use tgrc::history::{HistoryFetch, HistoryMessage, HistoryRequest, ReadPlan, MAX_BATCH};

fn history(n: i64) -> Vec<HistoryMessage> {
    // newest first, ids decreasing
    (0..n)
        .map(|i| HistoryMessage { id: 1000 - i, date: 0, content: MessageContent::Text(format!("m{}", i)) })
        .collect()
}

/// A server that answers with at most `per_batch` of the messages older
/// than the requested one.
fn serve(h: &[HistoryMessage], r: HistoryRequest, per_batch: usize) -> Vec<Option<HistoryMessage>> {
    let older: Vec<&HistoryMessage> =
        h.iter().filter(|m| r.from_message_id == 0 || m.id < r.from_message_id).collect();
    older.into_iter().take((r.limit as usize).min(per_batch)).map(|m| Some(m.clone())).collect()
}

fn run_plan(h: &[HistoryMessage], limit: i32, skip: i32, per_batch: usize) -> (Vec<HistoryMessage>, Vec<HistoryRequest>) {
    let mut plan = ReadPlan::new(limit, skip);
    let mut requests = Vec::new();
    while let Some(r) = plan.next_request() {
        requests.push(r);
        plan.on_batch(serve(h, r, per_batch));
    }
    (plan.into_messages(), requests)
}

#[test]
fn skip_then_limit_reads_the_next_page() {
    let h = history(30);
    let (got, _) = run_plan(&h, 5, 5, 100);
    assert_eq!(got, h[5..10].to_vec());
    let (got, _) = run_plan(&h, 5, 10, 2);
    assert_eq!(got, h[10..15].to_vec());
    let (got, _) = run_plan(&h, 5, 3, 1);
    assert_eq!(got, h[3..8].to_vec());
}

#[test]
fn latest_messages_without_skip() {
    let h = history(30);
    let (got, reqs) = run_plan(&h, 5, 0, 100);
    assert_eq!(got, h[0..5].to_vec());
    assert_eq!(reqs, vec![HistoryRequest { from_message_id: 0, limit: 5 }]);
}

#[test]
fn short_histories() {
    let h = history(4);
    assert_eq!(run_plan(&h, 5, 0, 100).0, h);
    assert_eq!(run_plan(&h, 5, 2, 100).0, h[2..4].to_vec());
    assert!(run_plan(&h, 5, 4, 100).0.is_empty());
    assert!(run_plan(&h, 5, 9, 100).0.is_empty());
    assert!(run_plan(&[], 5, 3, 100).0.is_empty());
    assert!(run_plan(&h, 0, 0, 100).0.is_empty());
    assert!(run_plan(&h, -3, 1, 100).0.is_empty());
}

#[test]
fn batches_never_exceed_the_maximum() {
    let h = history(250);
    let (got, reqs) = run_plan(&h, 230, 0, 100);
    assert_eq!(got, h[0..230].to_vec());
    assert_eq!(reqs.iter().map(|r| r.limit).collect::<Vec<_>>(), vec![MAX_BATCH, MAX_BATCH, 30]);
    assert_eq!(reqs[1].from_message_id, h[99].id);
    assert_eq!(reqs[2].from_message_id, h[199].id);
}

#[test]
fn fetch_stops_on_an_empty_batch_and_skips_gaps() {
    let mut f = HistoryFetch::new(10, 0);
    assert_eq!(f.next_request(), Some(HistoryRequest { from_message_id: 0, limit: 10 }));
    let m = |id| HistoryMessage { id, date: 1, content: MessageContent::Animation };
    f.on_batch(vec![Some(m(9)), None, Some(m(7))]);
    assert_eq!(f.cursor(), 7);
    assert_eq!(f.next_request(), Some(HistoryRequest { from_message_id: 7, limit: 8 }));
    f.on_batch(vec![None]);
    assert_eq!(f.cursor(), 7);
    f.on_batch(vec![]);
    assert_eq!(f.next_request(), None);
    let (msgs, cursor) = f.finish();
    assert_eq!(msgs.iter().map(|m| m.id).collect::<Vec<_>>(), vec![9, 7]);
    assert_eq!(cursor, 7);
}

#[test]
fn fetch_from_a_message() {
    let f = HistoryFetch::new(3, 42);
    assert_eq!(f.next_request(), Some(HistoryRequest { from_message_id: 42, limit: 3 }));
    assert_eq!(HistoryFetch::new(0, 42).next_request(), None);
    assert!(HistoryFetch::new(0, 42).messages().is_empty());
}

#[test]
fn fetch_from_a_middle_message_reads_older_ones_and_ends_on_the_last() {
    let h = history(20);
    let from = h[6].id;
    let mut f = HistoryFetch::new(4, from);
    while let Some(r) = f.next_request() {
        f.on_batch(serve(&h, r, 3));
    }
    let (got, cursor) = f.finish();
    assert_eq!(got, h[7..11].to_vec());
    assert_eq!(cursor, h[10].id);

    let mut g = HistoryFetch::new(4, h[19].id);
    while let Some(r) = g.next_request() {
        g.on_batch(serve(&h, r, 3));
    }
    let (got, cursor) = g.finish();
    assert!(got.is_empty());
    assert_eq!(cursor, h[19].id);
}
