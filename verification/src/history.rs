//! Paginated reading of a chat's history.
//!
//! TDLib hands out a chat's history in batches of at most 100 messages,
//! newest first, each batch older than a given message id. `HistoryFetch`
//! decides which batch to ask for next and collects what comes back;
//! `ReadPlan` puts two fetches together to skip the newest messages first.

use vstd::prelude::*;
use crate::chat::MessageContent;
use crate::text::push_str;

verus! {

/// A message of a chat's history, as far as the reader uses it.
#[derive(Debug, Clone, PartialEq, Eq)]
pub struct HistoryMessage {
    pub id: i64,
    /// Send time, in seconds since the Unix epoch.
    pub date: i32,
    pub content: MessageContent,
}

/// A request for one batch of history: up to `limit` messages older than
/// `from_message_id` (the newest messages when it is 0).
#[derive(Debug, Clone, Copy, PartialEq, Eq)]
pub struct HistoryRequest {
    pub from_message_id: i64,
    pub limit: i32,
}

/// The most messages asked for in one batch.
pub const MAX_BATCH: i32 = 100;

/// The messages of a batch that were delivered (TDLib leaves a gap where a
/// message cannot be shown).
pub open spec fn present(batch: Seq<Option<HistoryMessage>>) -> Seq<HistoryMessage>
    decreases batch.len(),
{
    if batch.len() == 0 {
        Seq::empty()
    } else {
        let rest = present(batch.drop_last());
        match batch.last() {
            Some(m) => rest.push(m),
            None => rest,
        }
    }
}

/// The state of a fetch of `count` messages.
pub struct FetchState {
    pub count: int,
    /// The id of the last message received, or where the fetch started.
    pub cursor: i64,
    pub messages: Seq<HistoryMessage>,
    /// An empty batch came back: the history holds nothing older.
    pub exhausted: bool,
}

pub open spec fn fetch_start(count: i32, from_message_id: i64) -> FetchState {
    FetchState { count: count as int, cursor: from_message_id, messages: Seq::empty(), exhausted: false }
}

pub open spec fn batch_limit(s: FetchState) -> int {
    if s.count - s.messages.len() > MAX_BATCH { MAX_BATCH as int } else { s.count - s.messages.len() }
}

/// The next batch to ask for: none once `count` messages are in or the
/// history ran out; otherwise what is still missing, at most `MAX_BATCH`,
/// older than the last message received.
pub open spec fn fetch_request(s: FetchState) -> Option<HistoryRequest> {
    if !s.exhausted && s.messages.len() < s.count {
        Some(HistoryRequest { from_message_id: s.cursor, limit: batch_limit(s) as i32 })
    } else {
        None
    }
}

/// The state after a batch came back.
pub open spec fn fetch_after(s: FetchState, batch: Seq<Option<HistoryMessage>>) -> FetchState {
    if batch.len() == 0 {
        FetchState { exhausted: true, ..s }
    } else {
        let got = present(batch);
        FetchState {
            messages: s.messages + got,
            cursor: if got.len() > 0 { got.last().id } else { s.cursor },
            ..s
        }
    }
}

/// Collects up to `count` messages of a chat's history, batch by batch.
pub struct HistoryFetch {
    count: i32,
    cursor: i64,
    messages: Vec<HistoryMessage>,
    exhausted: bool,
}

impl View for HistoryFetch {
    type V = FetchState;

    closed spec fn view(&self) -> FetchState {
        FetchState {
            count: self.count as int,
            cursor: self.cursor,
            messages: self.messages@,
            exhausted: self.exhausted,
        }
    }
}

impl HistoryFetch {
    /// Starts a fetch of `count` messages older than `from_message_id`
    /// (the newest ones when it is 0).
    pub fn new(count: i32, from_message_id: i64) -> (res: HistoryFetch)
        ensures
            res@ == fetch_start(count, from_message_id),
    {
        HistoryFetch { count, cursor: from_message_id, messages: Vec::new(), exhausted: false }
    }

    /// The batch to ask for next, if any.
    pub fn next_request(&self) -> (res: Option<HistoryRequest>)
        ensures
            res == fetch_request(self@),
            res matches Some(r) ==> 1 <= r.limit <= MAX_BATCH && r.limit <= self@.count - self@.messages.len(),
    {
        let len = self.messages.len();
        if !self.exhausted && self.count > 0 && len < self.count as usize {
            let missing: i32 = self.count - len as i32;
            let limit = if missing > MAX_BATCH { MAX_BATCH } else { missing };
            Some(HistoryRequest { from_message_id: self.cursor, limit })
        } else {
            None
        }
    }

    /// Takes in the batch that answered the last request.
    pub fn on_batch(&mut self, batch: Vec<Option<HistoryMessage>>)
        ensures
            final(self)@ == fetch_after(old(self)@, batch@),
    {
        if batch.len() == 0 {
            self.exhausted = true;
            return;
        }
        let total = batch.len();
        let ghost orig = batch@;
        let ghost start = self@;
        let mut batch = batch;
        let mut k: usize = 0;
        while k < total
            invariant
                total == orig.len(),
                k <= total,
                k + batch@.len() == orig.len(),
                batch@ == orig.skip(k as int),
                self@.count == start.count,
                self@.exhausted == start.exhausted,
                self@.messages == start.messages + present(orig.take(k as int)),
                self@.cursor == (if present(orig.take(k as int)).len() > 0 {
                    present(orig.take(k as int)).last().id
                } else {
                    start.cursor
                }),
            decreases total - k,
        {
            let item = batch.remove(0);
            proof {
                assert(orig.take(k + 1).drop_last() =~= orig.take(k as int));
                assert(orig.take(k + 1).last() == orig[k as int]);
                assert(item == orig[k as int]);
            }
            match item {
                Some(m) => {
                    self.cursor = m.id;
                    self.messages.push(m);
                },
                None => {},
            }
            k = k + 1;
            assert(batch@ =~= orig.skip(k as int));
        }
        assert(orig.take(k as int) =~= orig);
    }

    /// The messages collected so far, newest first.
    pub fn messages(&self) -> (res: &Vec<HistoryMessage>)
        ensures
            res@ == self@.messages,
    {
        &self.messages
    }

    /// The id of the last message received, or where the fetch started.
    pub fn cursor(&self) -> (res: i64)
        ensures
            res == self@.cursor,
    {
        self.cursor
    }

    /// Ends the fetch, handing out the messages and the cursor.
    pub fn finish(self) -> (res: (Vec<HistoryMessage>, i64))
        ensures
            res.0@ == self@.messages,
            res.1 == self@.cursor,
    {
        (self.messages, self.cursor)
    }
}

/// The state of a `read`: first skipping the newest `skip` messages, then
/// collecting `limit` messages older than the last one skipped.
pub struct PlanState {
    pub limit: int,
    pub skipping: bool,
    pub fetch: FetchState,
}

pub open spec fn plan_start(limit: i32, skip: i32) -> PlanState {
    if skip > 0 {
        PlanState { limit: limit as int, skipping: true, fetch: fetch_start(skip, 0) }
    } else {
        PlanState { limit: limit as int, skipping: false, fetch: fetch_start(limit, 0) }
    }
}

pub open spec fn plan_request(p: PlanState) -> Option<HistoryRequest> {
    fetch_request(p.fetch)
}

pub open spec fn plan_after(p: PlanState, batch: Seq<Option<HistoryMessage>>) -> PlanState {
    let f = fetch_after(p.fetch, batch);
    if p.skipping && fetch_request(f) is None {
        PlanState {
            limit: p.limit,
            skipping: false,
            fetch: FetchState { count: p.limit, cursor: f.cursor, messages: Seq::empty(), exhausted: false },
        }
    } else {
        PlanState { fetch: f, ..p }
    }
}

/// The messages a `read` shows: those of the second fetch.
pub open spec fn plan_messages(p: PlanState) -> Seq<HistoryMessage> {
    if p.skipping { Seq::empty() } else { p.fetch.messages }
}

/// Drives the history requests of `read --limit limit --skip skip`.
pub struct ReadPlan {
    limit: i32,
    skipping: bool,
    fetch: HistoryFetch,
}

impl View for ReadPlan {
    type V = PlanState;

    closed spec fn view(&self) -> PlanState {
        PlanState { limit: self.limit as int, skipping: self.skipping, fetch: self.fetch@ }
    }
}

impl ReadPlan {
    pub fn new(limit: i32, skip: i32) -> (res: ReadPlan)
        ensures
            res@ == plan_start(limit, skip),
    {
        if skip > 0 {
            ReadPlan { limit, skipping: true, fetch: HistoryFetch::new(skip, 0) }
        } else {
            ReadPlan { limit, skipping: false, fetch: HistoryFetch::new(limit, 0) }
        }
    }

    /// The batch to ask for next; `None` once the messages to show are in.
    pub fn next_request(&self) -> (res: Option<HistoryRequest>)
        ensures
            res == plan_request(self@),
            res matches Some(r) ==> 1 <= r.limit <= MAX_BATCH,
    {
        self.fetch.next_request()
    }

    /// Takes in the batch that answered the last request.
    pub fn on_batch(&mut self, batch: Vec<Option<HistoryMessage>>)
        ensures
            final(self)@ == plan_after(old(self)@, batch@),
    {
        self.fetch.on_batch(batch);
        if self.skipping && self.fetch.next_request().is_none() {
            let cursor = self.fetch.cursor();
            self.fetch = HistoryFetch::new(self.limit, cursor);
            self.skipping = false;
        }
    }

    /// The messages to show, newest first.
    pub fn into_messages(self) -> (res: Vec<HistoryMessage>)
        ensures
            res@ == plan_messages(self@),
    {
        if self.skipping {
            Vec::new()
        } else {
            self.fetch.finish().0
        }
    }
}

/// The message `read` reports when a batch of history cannot be fetched.
pub fn fetch_error(message: &str) -> (res: String)
    ensures
        res@ == "Failed to fetch messages: "@ + message@,
{
    let mut s = String::new();
    push_str(&mut s, "Failed to fetch messages: ");
    push_str(&mut s, message);
    s
}

// A model of a chat's history, to state what the fetches deliver.

/// Message ids of a history, newest first: positive and decreasing.
pub open spec fn newest_first(h: Seq<HistoryMessage>) -> bool {
    &&& forall|i: int, j: int| 0 <= i < j < h.len() ==> #[trigger] h[i].id > #[trigger] h[j].id
    &&& forall|i: int| 0 <= i < h.len() ==> #[trigger] h[i].id > 0
}

/// The messages of `h` older than `from` (all of `h` when `from` is 0).
pub open spec fn older_than(h: Seq<HistoryMessage>, from: i64) -> Seq<HistoryMessage>
    decreases h.len(),
{
    if from == 0 || h.len() == 0 || h[0].id < from {
        h
    } else {
        older_than(h.drop_first(), from)
    }
}

/// `batch` is a page of `h` as TDLib documents `getChatHistory`: some of
/// the next messages older than `from_message_id`, at least one and at most
/// `limit` while any are left, and an empty batch when none are.
pub open spec fn is_page(h: Seq<HistoryMessage>, r: HistoryRequest, batch: Seq<Option<HistoryMessage>>) -> bool {
    let avail = older_than(h, r.from_message_id);
    let got = present(batch);
    if avail.len() == 0 {
        batch.len() == 0
    } else {
        &&& 1 <= got.len() <= r.limit
        &&& got.len() <= avail.len()
        &&& got == avail.take(got.len() as int)
    }
}

pub open spec fn fetch_run(s: FetchState, batches: Seq<Seq<Option<HistoryMessage>>>) -> FetchState
    decreases batches.len(),
{
    if batches.len() == 0 {
        s
    } else {
        fetch_run(fetch_after(s, batches[0]), batches.drop_first())
    }
}

/// Every batch of the run answers the request made just before it with a
/// page of `h`.
pub open spec fn fetch_served(h: Seq<HistoryMessage>, s: FetchState, batches: Seq<Seq<Option<HistoryMessage>>>) -> bool
    decreases batches.len(),
{
    batches.len() == 0 || {
        &&& fetch_request(s) matches Some(r)
        &&& is_page(h, r, batches[0])
        &&& fetch_served(h, fetch_after(s, batches[0]), batches.drop_first())
    }
}

pub open spec fn plan_run(p: PlanState, batches: Seq<Seq<Option<HistoryMessage>>>) -> PlanState
    decreases batches.len(),
{
    if batches.len() == 0 {
        p
    } else {
        plan_run(plan_after(p, batches[0]), batches.drop_first())
    }
}

pub open spec fn plan_served(h: Seq<HistoryMessage>, p: PlanState, batches: Seq<Seq<Option<HistoryMessage>>>) -> bool
    decreases batches.len(),
{
    batches.len() == 0 || {
        &&& plan_request(p) matches Some(r)
        &&& is_page(h, r, batches[0])
        &&& plan_served(h, plan_after(p, batches[0]), batches.drop_first())
    }
}

pub open spec fn clamp(x: int, hi: int) -> int {
    if x <= 0 { 0 } else if x < hi { x } else { hi }
}

/// The messages numbered `skip + 1` to `skip + limit`, newest first, as far
/// as the history has them.
pub open spec fn page_of(h: Seq<HistoryMessage>, limit: int, skip: int) -> Seq<HistoryMessage> {
    let start = clamp(skip, h.len() as int);
    h.subrange(start, start + clamp(limit, h.len() - start))
}

pub open spec fn cursor_at(h: Seq<HistoryMessage>, b: int) -> i64 {
    if b == 0 { 0 } else { h[b - 1].id }
}

proof fn lemma_older_than_cursor(h: Seq<HistoryMessage>, b: int)
    requires
        newest_first(h),
        0 <= b <= h.len(),
    ensures
        older_than(h, cursor_at(h, b)) == h.skip(b),
    decreases h.len(),
{
    if b == 0 {
        assert(h.skip(0) =~= h);
    } else {
        let x = h[b - 1].id;
        let t = h.drop_first();
        assert(newest_first(t)) by {
            assert forall|i: int, j: int| 0 <= i < j < t.len() implies #[trigger] t[i].id > #[trigger] t[j].id by {
                assert(t[i] == h[i + 1] && t[j] == h[j + 1]);
            }
            assert forall|i: int| 0 <= i < t.len() implies #[trigger] t[i].id > 0 by {
                assert(t[i] == h[i + 1]);
            }
        }
        assert(x > 0);
        if b == 1 {
            assert(older_than(h, x) == older_than(t, x));
            if t.len() > 0 {
                assert(t[0] == h[1]);
                assert(h[0].id > h[1].id);
            }
            assert(older_than(t, x) == t);
            assert(t =~= h.skip(1));
        } else {
            assert(h[0].id > h[b - 1].id);
            assert(older_than(h, x) == older_than(t, x));
            assert(t[b - 2] == h[b - 1]);
            assert(cursor_at(t, b - 1) == x);
            lemma_older_than_cursor(t, b - 1);
            assert(t.skip(b - 1) =~= h.skip(b));
        }
    }
}

/// What a fetch that started at message `a` of the history holds.
pub open spec fn fetch_inv(s: FetchState, h: Seq<HistoryMessage>, a: int) -> bool {
    &&& 0 <= a
    &&& a + s.messages.len() <= h.len()
    &&& s.messages == h.subrange(a, a + s.messages.len())
    &&& older_than(h, s.cursor) == h.skip(a + s.messages.len())
    &&& s.exhausted ==> a + s.messages.len() == h.len()
    &&& s.messages.len() <= clamp(s.count, s.count)
}

proof fn lemma_fetch_step(s: FetchState, h: Seq<HistoryMessage>, a: int, batch: Seq<Option<HistoryMessage>>)
    requires
        newest_first(h),
        fetch_inv(s, h, a),
        fetch_request(s) is Some,
        is_page(h, fetch_request(s)->0, batch),
    ensures
        fetch_inv(fetch_after(s, batch), h, a),
        fetch_after(s, batch).count == s.count,
{
    let n = s.messages.len() as int;
    let avail = older_than(h, s.cursor);
    let got = present(batch);
    if avail.len() == 0 {
    } else {
        let k = got.len() as int;
        let t = fetch_after(s, batch);
        assert(batch.len() > 0);
        assert(got =~= h.subrange(a + n, a + n + k));
        assert(t.messages =~= h.subrange(a, a + n + k));
        assert(got.last() == h[a + n + k - 1]);
        lemma_older_than_cursor(h, a + n + k);
    }
}

proof fn lemma_fetch_done(s: FetchState, h: Seq<HistoryMessage>, a: int)
    requires
        fetch_inv(s, h, a),
        fetch_request(s) is None,
    ensures
        s.messages == h.subrange(a, a + clamp(s.count, h.len() - a)),
{
}

/// Fetching from message `a` on, with every batch a page of the history,
/// keeps the fetch's invariant.
proof fn lemma_fetch_run(s: FetchState, h: Seq<HistoryMessage>, a: int, batches: Seq<Seq<Option<HistoryMessage>>>)
    requires
        newest_first(h),
        fetch_inv(s, h, a),
        fetch_served(h, s, batches),
    ensures
        fetch_inv(fetch_run(s, batches), h, a),
        fetch_run(s, batches).count == s.count,
    decreases batches.len(),
{
    if batches.len() > 0 {
        lemma_fetch_step(s, h, a, batches[0]);
        lemma_fetch_run(fetch_after(s, batches[0]), h, a, batches.drop_first());
    }
}

/// Where the messages older than `from` begin in `h`.
pub open spec fn older_index(h: Seq<HistoryMessage>, from: i64) -> int
    decreases h.len(),
{
    if from == 0 || h.len() == 0 || h[0].id < from {
        0
    } else {
        1 + older_index(h.drop_first(), from)
    }
}

proof fn lemma_older_index(h: Seq<HistoryMessage>, from: i64)
    ensures
        0 <= older_index(h, from) <= h.len(),
        older_than(h, from) == h.skip(older_index(h, from)),
    decreases h.len(),
{
    if from == 0 || h.len() == 0 || h[0].id < from {
        assert(h.skip(0) =~= h);
    } else {
        let t = h.drop_first();
        lemma_older_index(t, from);
        assert(t.skip(older_index(t, from)) =~= h.skip(older_index(h, from)));
    }
}

/// The cursor is the id of the last message received, or where the fetch
/// started while none has been.
pub open spec fn cursor_tracks(s: FetchState, from: i64) -> bool {
    if s.messages.len() == 0 { s.cursor == from } else { s.cursor == s.messages.last().id }
}

proof fn lemma_cursor_tracks(s: FetchState, from: i64, batches: Seq<Seq<Option<HistoryMessage>>>)
    requires
        cursor_tracks(s, from),
    ensures
        cursor_tracks(fetch_run(s, batches), from),
    decreases batches.len(),
{
    if batches.len() > 0 {
        let b = batches[0];
        let t = fetch_after(s, b);
        if b.len() > 0 {
            let got = present(b);
            if got.len() > 0 {
                assert(t.messages.last() == got.last());
            } else {
                assert(t.messages =~= s.messages);
            }
        }
        lemma_cursor_tracks(t, from, batches.drop_first());
    }
}

/// A fetch of `count` messages older than `from` (the newest ones when it
/// is 0), answered page by page, ends holding the first `count` of those
/// messages (all of them if there are fewer), and its cursor is the id of
/// the last one, or `from` when there is none.
pub proof fn lemma_fetch_delivers(h: Seq<HistoryMessage>, count: i32, from: i64, batches: Seq<Seq<Option<HistoryMessage>>>)
    requires
        newest_first(h),
        fetch_served(h, fetch_start(count, from), batches),
        fetch_request(fetch_run(fetch_start(count, from), batches)) is None,
    ensures
        fetch_run(fetch_start(count, from), batches).messages
            == older_than(h, from).take(clamp(count as int, older_than(h, from).len() as int)),
        cursor_tracks(fetch_run(fetch_start(count, from), batches), from),
{
    let s = fetch_start(count, from);
    lemma_older_index(h, from);
    let a = older_index(h, from);
    assert(s.messages =~= h.subrange(a, a));
    lemma_fetch_run(s, h, a, batches);
    let r = fetch_run(s, batches);
    lemma_fetch_done(r, h, a);
    assert(r.messages =~= older_than(h, from).take(clamp(count as int, older_than(h, from).len() as int)));
    lemma_cursor_tracks(s, from, batches);
}

pub open spec fn plan_inv(p: PlanState, h: Seq<HistoryMessage>, limit: i32, skip: i32) -> bool {
    &&& p.limit == limit as int
    &&& if p.skipping {
        &&& skip > 0
        &&& p.fetch.count == skip as int
        &&& fetch_inv(p.fetch, h, 0)
        &&& fetch_request(p.fetch) is Some
    } else {
        &&& p.fetch.count == limit as int
        &&& fetch_inv(p.fetch, h, clamp(skip as int, h.len() as int))
    }
}

proof fn lemma_plan_step(p: PlanState, h: Seq<HistoryMessage>, limit: i32, skip: i32, batch: Seq<Option<HistoryMessage>>)
    requires
        newest_first(h),
        plan_inv(p, h, limit, skip),
        plan_request(p) is Some,
        is_page(h, plan_request(p)->0, batch),
    ensures
        plan_inv(plan_after(p, batch), h, limit, skip),
{
    let a = if p.skipping { 0 } else { clamp(skip as int, h.len() as int) };
    lemma_fetch_step(p.fetch, h, a, batch);
    let f = fetch_after(p.fetch, batch);
    if p.skipping && fetch_request(f) is None {
        lemma_fetch_done(f, h, 0);
        let b = clamp(skip as int, h.len() as int);
        assert(f.messages.len() == b);
        let q = plan_after(p, batch);
        assert(q.fetch.messages =~= h.subrange(b, b + 0));
    }
}

proof fn lemma_plan_run(p: PlanState, h: Seq<HistoryMessage>, limit: i32, skip: i32, batches: Seq<Seq<Option<HistoryMessage>>>)
    requires
        newest_first(h),
        plan_inv(p, h, limit, skip),
        plan_served(h, p, batches),
    ensures
        plan_inv(plan_run(p, batches), h, limit, skip),
    decreases batches.len(),
{
    if batches.len() > 0 {
        lemma_plan_step(p, h, limit, skip, batches[0]);
        lemma_plan_run(plan_after(p, batches[0]), h, limit, skip, batches.drop_first());
    }
}

/// `read --limit limit --skip skip` shows the messages numbered `skip + 1`
/// to `skip + limit`, counted from the newest, when TDLib answers every
/// request with a page of the history.
pub proof fn lemma_read_shows_page(h: Seq<HistoryMessage>, limit: i32, skip: i32, batches: Seq<Seq<Option<HistoryMessage>>>)
    requires
        newest_first(h),
        plan_served(h, plan_start(limit, skip), batches),
        plan_request(plan_run(plan_start(limit, skip), batches)) is None,
    ensures
        plan_messages(plan_run(plan_start(limit, skip), batches)) == page_of(h, limit as int, skip as int),
{
    let p = plan_start(limit, skip);
    assert(p.fetch.messages =~= h.subrange(0, 0));
    assert(h.skip(0) =~= h);
    lemma_plan_run(p, h, limit, skip, batches);
    let q = plan_run(p, batches);
    let a = clamp(skip as int, h.len() as int);
    lemma_fetch_done(q.fetch, h, a);
}

} // verus!
