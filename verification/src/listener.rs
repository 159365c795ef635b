//! One listener: the worker that polls one channel. The worker is a state
//! machine. Its driver carries out the action that a step returns (a fetch,
//! a query of the store, a webhook call, a sleep) and reports what came of
//! it as the next event.

use crate::config::{ConfigError, GlobalListenerConfig, GlobalListenerConfigView, ListenerConfig,
    ListenerConfigView};
use crate::html::document_of;
use crate::model::{clone_posts, Channel, ChannelView, Post, PostView, WebhookPayload,
    WebhookPayloadView};
use crate::parser::{page_of, parse_page, ParseError};
use crate::text::or_empty;
use crate::webhook::{retry_step, secret_header, send_webhook_retry, Retry, MAX_ATTEMPTS,
    RETRY_DELAY};
use vstd::prelude::*;

verus! {

/// Why a worker ends with an error.
#[derive(Clone, Copy, Debug, PartialEq, Eq, Structural)]
pub enum PollError {
    /// The page could not be fetched.
    Fetch,
    /// The page holds no channel.
    InvalidChannel,
    /// The page could not be read.
    Parse(ParseError),
    /// The store failed.
    Store,
    /// New posts are to be delivered, but no webhook URL is configured.
    WebhookMissing,
    /// The poll interval is negative.
    Interval,
    /// The event does not answer the action that is under way.
    Unexpected,
}

/// What the driver reports to the worker.
#[derive(Debug)]
pub enum Event {
    /// The worker's cancellation handle fired.
    Cancelled,
    /// The global configuration changed.
    GlobalChanged(GlobalListenerConfig),
    /// The worker starts, or the sleep it asked for has ended.
    Wake,
    /// The page was fetched; this is its text.
    Fetched(String),
    /// The store was asked for a post; this says whether it holds it.
    Looked(bool),
    /// The post was written to the store.
    Stored,
    /// The webhook call was answered with this status.
    Sent(u16),
    /// The action failed: no page, no answer of the store, no answer to the
    /// webhook call.
    Failed,
}

/// What the worker asks its driver to do.
#[derive(Debug)]
pub enum Action {
    /// Fetch the page at `url`.
    Fetch { url: String },
    /// Ask the store whether it holds the post `id`.
    Lookup { id: String },
    /// Write `post` to the store.
    Store { post: Post },
    /// Call the webhook at `url` with the header `x-secret: secret` and the
    /// channel and new posts as payload; `attempt` counts the calls made for
    /// this batch, from 1.
    Send { url: String, secret: String, channel: Channel, new_posts: Vec<Post>, attempt: u64 },
    /// Sleep, then report `Wake`.
    Sleep { seconds: u64 },
    /// Return from the worker with this result.
    Exit(Result<(), PollError>),
}

/// The posts of a page on their way through the store.
pub(crate) struct Batch {
    interval: i64,
    channel: Channel,
    posts: Vec<Post>,
    next: usize,
    new_posts: Vec<Post>,
}

/// A batch of new posts on its way to the webhook.
pub(crate) struct Delivery {
    interval: i64,
    url: String,
    channel: Channel,
    new_posts: Vec<Post>,
    attempt: u64,
}

/// Where a worker stands.
pub(crate) enum Cycle {
    /// Before the first cycle, or asleep between two.
    Waiting,
    /// The page is being fetched.
    Fetching { interval: i64 },
    /// The store is being asked for the next post.
    Looking(Batch),
    /// The next post is being written to the store.
    Storing(Batch),
    /// A webhook call is under way.
    Sending(Delivery),
    /// A webhook call failed and the delay before the next one runs.
    Retrying(Delivery),
    /// The worker has returned.
    Done,
}

/// A worker.
pub struct Listener {
    /// The effective configuration: the listener's own, merged with the
    /// global one.
    cfg: ListenerConfig,
    /// The listener's own configuration, as it was given.
    own: ListenerConfig,
    /// Whether the worker was told to stop. Once set it stays set.
    shutdown: bool,
    /// Where the worker stands in its cycle.
    cycle: Cycle,
}

/// The mathematical value of an [`Event`].
#[verifier::ext_equal]
pub enum EventView {
    Cancelled,
    GlobalChanged(GlobalListenerConfigView),
    Wake,
    Fetched(Seq<char>),
    Looked(bool),
    Stored,
    Sent(u16),
    Failed,
}

/// The mathematical value of an [`Action`].
#[verifier::ext_equal]
pub enum ActionView {
    Fetch { url: Seq<char> },
    Lookup { id: Seq<char> },
    Store { post: PostView },
    Send { url: Seq<char>, secret: Seq<char>, payload: WebhookPayloadView, attempt: u64 },
    Sleep { seconds: u64 },
    Exit(Result<(), PollError>),
}

/// The mathematical value of a [`Batch`].
#[verifier::ext_equal]
pub struct BatchView {
    /// The poll interval that was in force when the cycle began.
    pub interval: i64,
    pub channel: ChannelView,
    /// The posts of the page.
    pub posts: Seq<PostView>,
    /// How many of them have been through the store.
    pub next: int,
    /// Those of them that were new, in the order of the page.
    pub new_posts: Seq<PostView>,
}

/// The mathematical value of a [`Delivery`].
#[verifier::ext_equal]
pub struct DeliveryView {
    pub interval: i64,
    pub url: Seq<char>,
    pub channel: ChannelView,
    pub new_posts: Seq<PostView>,
    /// The number of the call under way, or of the last one made.
    pub attempt: u64,
}

/// The mathematical value of a [`Cycle`].
#[verifier::ext_equal]
pub enum CycleView {
    Waiting,
    Fetching { interval: i64 },
    Looking(BatchView),
    Storing(BatchView),
    Sending(DeliveryView),
    Retrying(DeliveryView),
    Done,
}

/// The mathematical value of a [`Listener`].
#[verifier::ext_equal]
pub struct ListenerView {
    /// The effective configuration.
    pub cfg: ListenerConfigView,
    /// The listener's own configuration, before any merge.
    pub own: ListenerConfigView,
    /// Whether the worker was told to stop.
    pub shutdown: bool,
    pub cycle: CycleView,
}

impl View for Event {
    type V = EventView;

    open spec fn view(&self) -> EventView {
        match self {
            Event::Cancelled => EventView::Cancelled,
            Event::GlobalChanged(g) => EventView::GlobalChanged(g@),
            Event::Wake => EventView::Wake,
            Event::Fetched(html) => EventView::Fetched(html@),
            Event::Looked(found) => EventView::Looked(*found),
            Event::Stored => EventView::Stored,
            Event::Sent(status) => EventView::Sent(*status),
            Event::Failed => EventView::Failed,
        }
    }
}

impl View for Action {
    type V = ActionView;

    open spec fn view(&self) -> ActionView {
        match self {
            Action::Fetch { url } => ActionView::Fetch { url: url@ },
            Action::Lookup { id } => ActionView::Lookup { id: id@ },
            Action::Store { post } => ActionView::Store { post: post@ },
            Action::Send { url, secret, channel, new_posts, attempt } => ActionView::Send {
                url: url@,
                secret: secret@,
                payload: WebhookPayloadView {
                    channel: channel@,
                    new_posts: new_posts.deep_view(),
                },
                attempt: *attempt,
            },
            Action::Sleep { seconds } => ActionView::Sleep { seconds: *seconds },
            Action::Exit(r) => ActionView::Exit(*r),
        }
    }
}

impl Action {
    /// The payload of a webhook call; none for any other action.
    pub fn payload(&self) -> (r: Option<WebhookPayload<'_>>)
        ensures
            match self@ {
                ActionView::Send { payload, .. } => r matches Some(p) && p@ == payload,
                _ => r is None,
            },
    {
        match self {
            Action::Send { channel, new_posts, .. } => {
                let posts = new_posts.as_slice();
                assert(posts.deep_view() =~= new_posts.deep_view());
                Some(WebhookPayload::new(channel, posts))
            },
            _ => None,
        }
    }
}

impl View for Batch {
    type V = BatchView;

    closed spec fn view(&self) -> BatchView {
        BatchView {
            interval: self.interval,
            channel: self.channel@,
            posts: self.posts.deep_view(),
            next: self.next as int,
            new_posts: self.new_posts.deep_view(),
        }
    }
}

impl View for Delivery {
    type V = DeliveryView;

    closed spec fn view(&self) -> DeliveryView {
        DeliveryView {
            interval: self.interval,
            url: self.url@,
            channel: self.channel@,
            new_posts: self.new_posts.deep_view(),
            attempt: self.attempt,
        }
    }
}

impl View for Cycle {
    type V = CycleView;

    closed spec fn view(&self) -> CycleView {
        match self {
            Cycle::Waiting => CycleView::Waiting,
            Cycle::Fetching { interval } => CycleView::Fetching { interval: *interval },
            Cycle::Looking(b) => CycleView::Looking(b@),
            Cycle::Storing(b) => CycleView::Storing(b@),
            Cycle::Sending(d) => CycleView::Sending(d@),
            Cycle::Retrying(d) => CycleView::Retrying(d@),
            Cycle::Done => CycleView::Done,
        }
    }
}

impl View for Listener {
    type V = ListenerView;

    closed spec fn view(&self) -> ListenerView {
        ListenerView {
            cfg: self.cfg@,
            own: self.own@,
            shutdown: self.shutdown,
            cycle: self.cycle@,
        }
    }
}

impl CycleView {
    /// A post that is looked up or stored is one of the page's; calls are
    /// numbered from 1 to the maximum and carry at least one post; a call
    /// that is made again was not the last one allowed.
    pub open spec fn wf(self) -> bool {
        match self {
            CycleView::Looking(b) | CycleView::Storing(b) => 0 <= b.next < b.posts.len(),
            CycleView::Sending(d) => 1 <= d.attempt <= MAX_ATTEMPTS && d.new_posts.len() > 0,
            CycleView::Retrying(d) => 1 <= d.attempt < MAX_ATTEMPTS && d.new_posts.len() > 0,
            _ => true,
        }
    }
}

impl ListenerView {
    /// A worker that was just made.
    pub open spec fn fresh(own: ListenerConfigView, global: GlobalListenerConfigView) -> ListenerView {
        ListenerView { cfg: own.merged(global), own, shutdown: false, cycle: CycleView::Waiting }
    }

    /// The worker ends with `error`.
    pub open spec fn fail(self, error: PollError) -> (ListenerView, ActionView) {
        (ListenerView { cycle: CycleView::Done, ..self }, ActionView::Exit(Err(error)))
    }

    /// A cycle begins: the channel URL and the poll interval in force are
    /// read, and the page is fetched.
    pub open spec fn begin(self) -> (ListenerView, ActionView) {
        (
            ListenerView { cycle: CycleView::Fetching { interval: self.cfg.interval() }, ..self },
            ActionView::Fetch { url: self.cfg.channel_url },
        )
    }

    /// A cycle ends: the worker sleeps through the poll interval that was in
    /// force when the cycle began.
    pub open spec fn rest(self, interval: i64) -> (ListenerView, ActionView) {
        if interval < 0 {
            self.fail(PollError::Interval)
        } else {
            (
                ListenerView { cycle: CycleView::Waiting, ..self },
                ActionView::Sleep { seconds: interval as u64 },
            )
        }
    }

    /// The call of a delivery: the secret is read as the call is made.
    pub open spec fn send(self, d: DeliveryView) -> (ListenerView, ActionView) {
        (
            ListenerView { cycle: CycleView::Sending(d), ..self },
            ActionView::Send {
                url: d.url,
                secret: or_empty(self.cfg.webhook_secret),
                payload: WebhookPayloadView { channel: d.channel, new_posts: d.new_posts },
                attempt: d.attempt,
            },
        )
    }

    /// The batch moves on: the next post is looked up; after the last one
    /// the new posts are delivered, if there are any, to the webhook URL in
    /// force, and else the cycle ends.
    pub open spec fn advance(self, b: BatchView) -> (ListenerView, ActionView) {
        if b.next < b.posts.len() {
            (
                ListenerView { cycle: CycleView::Looking(b), ..self },
                ActionView::Lookup { id: b.posts[b.next].id },
            )
        } else if b.new_posts.len() == 0 {
            self.rest(b.interval)
        } else {
            match self.cfg.webhook_url {
                None => self.fail(PollError::WebhookMissing),
                Some(url) => self.send(
                    DeliveryView {
                        interval: b.interval,
                        url,
                        channel: b.channel,
                        new_posts: b.new_posts,
                        attempt: 1,
                    },
                ),
            }
        }
    }

    /// What follows the answer to a webhook call: on success the cycle ends;
    /// a failed call is made again after the delay, up to the maximum; after
    /// the last failure the cycle ends all the same.
    pub open spec fn answered(self, d: DeliveryView, answer: Option<u16>) -> (
        ListenerView,
        ActionView,
    ) {
        match retry_step(d.attempt, MAX_ATTEMPTS, answer) {
            Retry::Again => (
                ListenerView { cycle: CycleView::Retrying(d), ..self },
                ActionView::Sleep { seconds: RETRY_DELAY },
            ),
            _ => self.rest(d.interval),
        }
    }

    /// One step of the worker: the state after `event`, and the action that
    /// the driver is to carry out next.
    ///
    /// A worker that was told to stop returns with success, whatever the
    /// event. A change of the global configuration merges it into the
    /// listener's own and begins a new cycle. Any other event answers the
    /// action under way; one that does not fit ends the worker.
    pub open spec fn step(self, event: EventView) -> (ListenerView, ActionView) {
        if self.shutdown || event is Cancelled {
            (
                ListenerView { shutdown: true, cycle: CycleView::Done, ..self },
                ActionView::Exit(Ok(())),
            )
        } else if self.cycle is Done {
            self.fail(PollError::Unexpected)
        } else if event is GlobalChanged {
            (ListenerView { cfg: self.own.merged(event->GlobalChanged_0), ..self }).begin()
        } else {
            match (self.cycle, event) {
                (CycleView::Waiting, EventView::Wake) => self.begin(),
                (CycleView::Fetching { interval }, EventView::Fetched(html)) => match page_of(
                    document_of(html),
                ) {
                    Err(e) => self.fail(PollError::Parse(e)),
                    Ok(None) => self.fail(PollError::InvalidChannel),
                    Ok(Some(page)) => self.advance(
                        BatchView {
                            interval,
                            channel: page.channel,
                            posts: page.posts,
                            next: 0,
                            new_posts: Seq::empty(),
                        },
                    ),
                },
                (CycleView::Fetching { .. }, EventView::Failed) => self.fail(PollError::Fetch),
                (CycleView::Looking(b), EventView::Looked(found)) => if found {
                    self.advance(BatchView { next: b.next + 1, ..b })
                } else {
                    (
                        ListenerView { cycle: CycleView::Storing(b), ..self },
                        ActionView::Store { post: b.posts[b.next] },
                    )
                },
                (CycleView::Looking(_), EventView::Failed) => self.fail(PollError::Store),
                (CycleView::Storing(b), EventView::Stored) => self.advance(
                    BatchView {
                        next: b.next + 1,
                        new_posts: b.new_posts.push(b.posts[b.next]),
                        ..b
                    },
                ),
                (CycleView::Storing(_), EventView::Failed) => self.fail(PollError::Store),
                (CycleView::Sending(d), EventView::Sent(status)) => self.answered(d, Some(status)),
                (CycleView::Sending(d), EventView::Failed) => self.answered(d, None),
                (CycleView::Retrying(d), EventView::Wake) => self.send(
                    DeliveryView { attempt: (d.attempt + 1) as u64, ..d },
                ),
                _ => self.fail(PollError::Unexpected),
            }
        }
    }
}

impl Listener {
    #[verifier::type_invariant]
    spec fn inv(self) -> bool {
        self@.cycle.wf()
    }

    /// Makes a worker for the listener `cfg` under the global configuration
    /// `global`. The effective configuration, `cfg` merged with `global`,
    /// has to be valid: else no worker is made, and the error says why.
    pub fn new(cfg: ListenerConfig, global: &GlobalListenerConfig) -> (r: Result<
        Listener,
        ConfigError,
    >)
        ensures
            match r {
                Ok(l) => cfg@.merged(global@).validity() is Ok && l@ == ListenerView::fresh(
                    cfg@,
                    global@,
                ),
                Err(e) => cfg@.merged(global@).validity() == Err::<(), _>(e),
            },
    {
        let merged = cfg.clone().merge_with(global);
        match merged.validate() {
            Err(e) => Err(e),
            Ok(()) => Ok(Listener { cfg: merged, own: cfg, shutdown: false, cycle: Cycle::Waiting }),
        }
    }

    /// The effective configuration.
    pub fn cfg(&self) -> (cfg: &ListenerConfig)
        ensures
            cfg@ == self@.cfg,
    {
        &self.cfg
    }

    /// Whether the worker has returned.
    pub fn is_done(&self) -> (done: bool)
        ensures
            done == (self@.cycle is Done),
    {
        match self.cycle {
            Cycle::Done => true,
            _ => false,
        }
    }

    /// Tells the worker to stop: its next step returns.
    pub fn stop(&mut self)
        ensures
            final(self)@ == (ListenerView { shutdown: true, ..old(self)@ }),
    {
        proof {
            use_type_invariant(&*self);
        }
        self.shutdown = true;
    }

    /// Replaces the listener's own configuration by `listener_cfg`, and the
    /// effective one by `listener_cfg` merged with `global_cfg`. The cycle
    /// under way goes on.
    pub fn reconfigure(&mut self, global_cfg: &GlobalListenerConfig, listener_cfg: ListenerConfig)
        ensures
            final(self)@ == (ListenerView {
                cfg: listener_cfg@.merged(global_cfg@),
                own: listener_cfg@,
                ..old(self)@
            }),
    {
        proof {
            use_type_invariant(&*self);
        }
        self.cfg = listener_cfg.clone().merge_with(global_cfg);
        self.own = listener_cfg;
    }

    fn fail(&mut self, error: PollError) -> (action: Action)
        ensures
            (final(self)@, action@) == old(self)@.fail(error),
    {
        self.cycle = Cycle::Done;
        Action::Exit(Err(error))
    }

    fn begin(&mut self) -> (action: Action)
        ensures
            (final(self)@, action@) == old(self)@.begin(),
    {
        let interval = self.cfg.interval();
        self.cycle = Cycle::Fetching { interval };
        Action::Fetch { url: self.cfg.channel_url.clone() }
    }

    fn rest(&mut self, interval: i64) -> (action: Action)
        ensures
            (final(self)@, action@) == old(self)@.rest(interval),
    {
        if interval < 0 {
            self.fail(PollError::Interval)
        } else {
            self.cycle = Cycle::Waiting;
            Action::Sleep { seconds: interval as u64 }
        }
    }

    fn send(&mut self, d: Delivery) -> (action: Action)
        requires
            1 <= d.attempt <= MAX_ATTEMPTS,
            d.new_posts.len() > 0,
        ensures
            (final(self)@, action@) == old(self)@.send(d@),
    {
        let action = Action::Send {
            url: d.url.clone(),
            secret: secret_header(&self.cfg.webhook_secret),
            channel: d.channel.clone(),
            new_posts: clone_posts(&d.new_posts),
            attempt: d.attempt,
        };
        self.cycle = Cycle::Sending(d);
        action
    }

    fn advance(&mut self, b: Batch) -> (action: Action)
        requires
            b.next <= b.posts.len(),
        ensures
            (final(self)@, action@) == old(self)@.advance(b@),
    {
        if b.next < b.posts.len() {
            let id = b.posts[b.next].id.clone();
            self.cycle = Cycle::Looking(b);
            Action::Lookup { id }
        } else if b.new_posts.len() == 0 {
            self.rest(b.interval)
        } else {
            match &self.cfg.webhook_url {
                None => self.fail(PollError::WebhookMissing),
                Some(url) => {
                    let url = url.clone();
                    self.send(
                        Delivery {
                            interval: b.interval,
                            url,
                            channel: b.channel,
                            new_posts: b.new_posts,
                            attempt: 1,
                        },
                    )
                },
            }
        }
    }

    fn answered(&mut self, d: Delivery, answer: Option<u16>) -> (action: Action)
        requires
            1 <= d.attempt <= MAX_ATTEMPTS,
            d.new_posts.len() > 0,
        ensures
            (final(self)@, action@) == old(self)@.answered(d@, answer),
    {
        match send_webhook_retry(d.attempt, MAX_ATTEMPTS, answer) {
            Retry::Again => {
                self.cycle = Cycle::Retrying(d);
                Action::Sleep { seconds: RETRY_DELAY }
            },
            _ => self.rest(d.interval),
        }
    }

    /// Advances the worker by one event and returns the action that its
    /// driver is to carry out next.
    pub fn run(&mut self, event: Event) -> (action: Action)
        ensures
            (final(self)@, action@) == old(self)@.step(event@),
    {
        proof {
            use_type_invariant(&*self);
        }
        if self.shutdown {
            self.cycle = Cycle::Done;
            return Action::Exit(Ok(()));
        }
        if let Event::Cancelled = event {
            self.shutdown = true;
            self.cycle = Cycle::Done;
            return Action::Exit(Ok(()));
        }
        let mut cycle = Cycle::Done;
        std::mem::swap(&mut self.cycle, &mut cycle);
        if let Cycle::Done = cycle {
            return self.fail(PollError::Unexpected);
        }
        if let Event::GlobalChanged(global) = event {
            self.cfg = self.own.clone().merge_with(&global);
            return self.begin();
        }
        match cycle {
            Cycle::Waiting => match event {
                Event::Wake => self.begin(),
                _ => self.fail(PollError::Unexpected),
            },
            Cycle::Fetching { interval } => match event {
                Event::Fetched(html) => match parse_page(html.as_str()) {
                    Err(e) => self.fail(PollError::Parse(e)),
                    Ok(None) => self.fail(PollError::InvalidChannel),
                    Ok(Some(page)) => self.advance(
                        Batch {
                            interval,
                            channel: page.channel,
                            posts: page.posts,
                            next: 0,
                            new_posts: Vec::new(),
                        },
                    ),
                },
                Event::Failed => self.fail(PollError::Fetch),
                _ => self.fail(PollError::Unexpected),
            },
            Cycle::Looking(b) => match event {
                Event::Looked(found) => {
                    assert(b.next < b.posts.len());
                    if found {
                        let mut b = b;
                        b.next = b.next + 1;
                        self.advance(b)
                    } else {
                        let post = b.posts[b.next].clone();
                        self.cycle = Cycle::Storing(b);
                        Action::Store { post }
                    }
                },
                Event::Failed => self.fail(PollError::Store),
                _ => self.fail(PollError::Unexpected),
            },
            Cycle::Storing(b) => match event {
                Event::Stored => {
                    assert(b.next < b.posts.len());
                    let mut b = b;
                    let ghost before = b.new_posts.deep_view();
                    let post = b.posts[b.next].clone();
                    b.new_posts.push(post);
                    assert(b.new_posts.deep_view() =~= before.push(post@));
                    b.next = b.next + 1;
                    self.advance(b)
                },
                Event::Failed => self.fail(PollError::Store),
                _ => self.fail(PollError::Unexpected),
            },
            Cycle::Sending(d) => match event {
                Event::Sent(status) => self.answered(d, Some(status)),
                Event::Failed => self.answered(d, None),
                _ => self.fail(PollError::Unexpected),
            },
            Cycle::Retrying(d) => match event {
                Event::Wake => {
                    let mut d = d;
                    d.attempt = d.attempt + 1;
                    self.send(d)
                },
                _ => self.fail(PollError::Unexpected),
            },
            Cycle::Done => self.fail(PollError::Unexpected),
        }
    }
}

/// The ids of the posts.
pub open spec fn ids(posts: Seq<PostView>) -> Set<Seq<char>> {
    Set::new(|id: Seq<char>| exists|i: int| 0 <= i < posts.len() && #[trigger] posts[i].id == id)
}

/// No two of the posts have the same id.
pub open spec fn distinct(posts: Seq<PostView>) -> bool {
    forall|i: int, j: int| 0 <= i < j < posts.len() ==> posts[i].id != posts[j].id
}

/// The ids that are known to be in the store once the driver reports
/// `event`: those known before, and the post whose write it confirms.
pub open spec fn store_after(store: Set<Seq<char>>, l: ListenerView, event: EventView) -> Set<
    Seq<char>,
> {
    match (l.cycle, event) {
        (CycleView::Storing(b), EventView::Stored) => store.insert(b.posts[b.next].id),
        _ => store,
    }
}

/// The answer to a lookup does not deny a post that is known to be in the
/// store.
pub open spec fn truthful(store: Set<Seq<char>>, l: ListenerView, event: EventView) -> bool {
    l.cycle matches CycleView::Looking(b) ==> (event matches EventView::Looked(found) ==> (!found
        ==> !store.contains(b.posts[b.next].id)))
}

/// The ids that were handed to the webhook once `action` is carried out: the
/// first call of a batch hands over its posts.
pub open spec fn notified_after(notified: Set<Seq<char>>, action: ActionView) -> Set<Seq<char>> {
    match action {
        ActionView::Send { payload, attempt, .. } => if attempt == 1 {
            notified.union(ids(payload.new_posts))
        } else {
            notified
        },
        _ => notified,
    }
}

/// The new posts gathered so far are in the store, differ in their ids, and
/// were never handed to the webhook.
pub open spec fn gathered(b: BatchView, store: Set<Seq<char>>, notified: Set<Seq<char>>) -> bool {
    &&& distinct(b.new_posts)
    &&& forall|i: int|
        0 <= i < b.new_posts.len() ==> store.contains(#[trigger] b.new_posts[i].id)
            && !notified.contains(b.new_posts[i].id)
}

/// What holds of a worker, of the ids `store` that are known to be in the
/// store, and of the ids `notified` that the worker handed to the webhook:
/// each id handed over is stored, and the batch under way is made of stored
/// posts that were not handed over.
pub open spec fn dedup(l: ListenerView, store: Set<Seq<char>>, notified: Set<Seq<char>>) -> bool {
    &&& l.cycle.wf()
    &&& notified.subset_of(store)
    &&& match l.cycle {
        CycleView::Looking(b) => gathered(b, store, notified),
        CycleView::Storing(b) => gathered(b, store, notified) && !store.contains(
            b.posts[b.next].id,
        ),
        _ => true,
    }
}

/// A post is handed to the webhook at most once: each step keeps [`dedup`],
/// and the posts of a batch, when its first call is made, differ in their
/// ids and were in no batch before.
pub proof fn lemma_posts_are_sent_once(
    l: ListenerView,
    event: EventView,
    store: Set<Seq<char>>,
    notified: Set<Seq<char>>,
)
    requires
        dedup(l, store, notified),
        truthful(store, l, event),
    ensures
        dedup(l.step(event).0, store_after(store, l, event), notified_after(notified, l.step(event).1)),
        l.step(event).1 matches ActionView::Send { payload, attempt, .. } ==> (attempt == 1 ==> {
            &&& distinct(payload.new_posts)
            &&& forall|i: int|
                0 <= i < payload.new_posts.len() ==> !notified.contains(
                    #[trigger] payload.new_posts[i].id,
                )
        }),
{
    let (after, action) = l.step(event);
    let store2 = store_after(store, l, event);
    let notified2 = notified_after(notified, action);
    if l.shutdown || event is Cancelled || l.cycle is Done || event is GlobalChanged {
    } else {
        match (l.cycle, event) {
            (CycleView::Looking(b), EventView::Looked(found)) => {
                if found {
                    lemma_advance_keeps_dedup(l, BatchView { next: b.next + 1, ..b }, store, notified);
                }
            },
            (CycleView::Storing(b), EventView::Stored) => {
                let post = b.posts[b.next];
                let b2 = BatchView { next: b.next + 1, new_posts: b.new_posts.push(post), ..b };
                assert(gathered(b2, store2, notified)) by {
                    assert forall|i: int| 0 <= i < b2.new_posts.len() implies store2.contains(
                        #[trigger] b2.new_posts[i].id,
                    ) && !notified.contains(b2.new_posts[i].id) by {
                        if i < b.new_posts.len() {
                            assert(b2.new_posts[i] == b.new_posts[i]);
                        }
                    }
                    assert forall|i: int, j: int| 0 <= i < j < b2.new_posts.len() implies b2.new_posts[i].id
                        != b2.new_posts[j].id by {
                        if j < b.new_posts.len() {
                            assert(b2.new_posts[i] == b.new_posts[i]);
                            assert(b2.new_posts[j] == b.new_posts[j]);
                        } else {
                            assert(b2.new_posts[i] == b.new_posts[i]);
                            assert(store.contains(b.new_posts[i].id));
                        }
                    }
                }
                lemma_advance_keeps_dedup(l, b2, store2, notified);
            },
            (CycleView::Fetching { interval }, EventView::Fetched(html)) => {
                match page_of(document_of(html)) {
                    Ok(Some(page)) => {
                        let b = BatchView {
                            interval,
                            channel: page.channel,
                            posts: page.posts,
                            next: 0,
                            new_posts: Seq::empty(),
                        };
                        lemma_advance_keeps_dedup(l, b, store, notified);
                    },
                    _ => {},
                }
            },
            _ => {},
        }
    }
}

/// The part of [`lemma_posts_are_sent_once`] on a batch that moves on.
proof fn lemma_advance_keeps_dedup(
    l: ListenerView,
    b: BatchView,
    store: Set<Seq<char>>,
    notified: Set<Seq<char>>,
)
    requires
        notified.subset_of(store),
        gathered(b, store, notified),
        0 <= b.next <= b.posts.len(),
    ensures
        dedup(l.advance(b).0, store, notified_after(notified, l.advance(b).1)),
        l.advance(b).1 matches ActionView::Send { payload, attempt, .. } ==> {
            &&& attempt == 1
            &&& payload.new_posts == b.new_posts
        },
{
    let (after, action) = l.advance(b);
    if b.next >= b.posts.len() && b.new_posts.len() > 0 && l.cfg.webhook_url is Some {
        let notified2 = notified_after(notified, action);
        assert(notified2 == notified.union(ids(b.new_posts)));
        assert forall|id: Seq<char>| notified2.contains(id) implies store.contains(id) by {
            if !notified.contains(id) {
                let i = choose|i: int| 0 <= i < b.new_posts.len() && #[trigger] b.new_posts[i].id == id;
                assert(store.contains(b.new_posts[i].id));
            }
        }
    }
}

/// A worker that was just made meets [`dedup`].
pub proof fn lemma_fresh_worker_dedup(
    own: ListenerConfigView,
    global: GlobalListenerConfigView,
    store: Set<Seq<char>>,
    notified: Set<Seq<char>>,
)
    requires
        notified.subset_of(store),
    ensures
        dedup(ListenerView::fresh(own, global), store, notified),
{
}

/// The ids of the posts, in their order.
pub open spec fn id_list(posts: Seq<PostView>) -> Seq<Seq<char>> {
    Seq::new(posts.len(), |i: int| posts[i].id)
}

/// The ids that an action hands to the webhook for the first time: those of
/// the posts of the first call for a batch.
pub open spec fn handed_over(action: ActionView) -> Seq<Seq<char>> {
    match action {
        ActionView::Send { payload, attempt, .. } => if attempt == 1 {
            id_list(payload.new_posts)
        } else {
            Seq::empty()
        },
        _ => Seq::empty(),
    }
}

/// No answer to a lookup along the events denies a post that is known to be
/// in the store: one of `store`, or one whose write was confirmed since.
pub open spec fn honest(l: ListenerView, store: Set<Seq<char>>, events: Seq<EventView>) -> bool
    decreases events.len(),
{
    events.len() == 0 || (truthful(store, l, events[0]) && honest(
        l.step(events[0]).0,
        store_after(store, l, events[0]),
        events.drop_first(),
    ))
}

/// The ids handed to the webhook along the events, batch after batch.
pub open spec fn notifications(l: ListenerView, events: Seq<EventView>) -> Seq<Seq<char>>
    decreases events.len(),
{
    if events.len() == 0 {
        Seq::empty()
    } else {
        handed_over(l.step(events[0]).1) + notifications(l.step(events[0]).0, events.drop_first())
    }
}

/// Over any number of cycles a worker hands no post id to the webhook
/// twice: whatever the events, as long as no lookup denies a post that is
/// known to be in the store, the ids handed over along them differ from each
/// other and from those handed over before.
pub proof fn lemma_no_post_is_notified_twice(
    l: ListenerView,
    store: Set<Seq<char>>,
    notified: Set<Seq<char>>,
    events: Seq<EventView>,
)
    requires
        dedup(l, store, notified),
        honest(l, store, events),
    ensures
        notifications(l, events).no_duplicates(),
        forall|i: int|
            0 <= i < notifications(l, events).len() ==> !notified.contains(
                #[trigger] notifications(l, events)[i],
            ),
    decreases events.len(),
{
    if events.len() > 0 {
        let (after, action) = l.step(events[0]);
        let head = handed_over(action);
        let store2 = store_after(store, l, events[0]);
        let notified2 = notified_after(notified, action);
        let tail = notifications(after, events.drop_first());
        lemma_posts_are_sent_once(l, events[0], store, notified);
        lemma_no_post_is_notified_twice(after, store2, notified2, events.drop_first());
        let all = notifications(l, events);
        assert(all == head + tail);
        assert forall|i: int| 0 <= i < head.len() implies notified2.contains(#[trigger] head[i])
            && !notified.contains(head[i]) by {
            match action {
                ActionView::Send { payload, attempt, .. } => {
                    assert(attempt == 1);
                    assert(head[i] == payload.new_posts[i].id);
                    assert(ids(payload.new_posts).contains(payload.new_posts[i].id));
                },
                _ => {},
            }
        }
        assert forall|i: int, j: int| 0 <= i < head.len() && 0 <= j < head.len() && i != j implies head[i]
            != head[j] by {
            match action {
                ActionView::Send { payload, attempt, .. } => {
                    assert(head[i] == payload.new_posts[i].id);
                    assert(head[j] == payload.new_posts[j].id);
                    if i < j {
                        assert(payload.new_posts[i].id != payload.new_posts[j].id);
                    } else {
                        assert(payload.new_posts[j].id != payload.new_posts[i].id);
                    }
                },
                _ => {},
            }
        }
        assert forall|i: int| 0 <= i < all.len() implies !notified.contains(#[trigger] all[i]) by {
            if i >= head.len() {
                assert(all[i] == tail[i - head.len()]);
                assert(!notified2.contains(tail[i - head.len()]));
            }
        }
        assert forall|i: int, j: int| 0 <= i < all.len() && 0 <= j < all.len() && i != j implies all[i]
            != all[j] by {
            if i < head.len() && j >= head.len() {
                assert(all[j] == tail[j - head.len()]);
                assert(!notified2.contains(tail[j - head.len()]));
            } else if j < head.len() && i >= head.len() {
                assert(all[i] == tail[i - head.len()]);
                assert(!notified2.contains(tail[i - head.len()]));
            } else if i >= head.len() && j >= head.len() {
                assert(all[i] == tail[i - head.len()]);
                assert(all[j] == tail[j - head.len()]);
            }
        }
    }
}

/// No webhook call is made for an empty batch, and none beyond the maximum:
/// every call carries at least one post and is one of the first five for
/// its batch. Every step keeps the worker well formed.
pub proof fn lemma_no_call_without_posts(l: ListenerView, event: EventView)
    requires
        l.cycle.wf(),
    ensures
        l.step(event).0.cycle.wf(),
        l.step(event).1 matches ActionView::Send { payload, attempt, .. } ==> {
            &&& payload.new_posts.len() > 0
            &&& 1 <= attempt <= MAX_ATTEMPTS
        },
{
}

/// A batch whose posts are all in the store already ends the cycle without
/// a webhook call: the worker goes to sleep.
pub proof fn lemma_nothing_new_means_sleep(l: ListenerView, b: BatchView)
    requires
        b.next >= b.posts.len(),
        b.new_posts.len() == 0,
        b.interval >= 0,
    ensures
        l.advance(b).1 == (ActionView::Sleep { seconds: b.interval as u64 }),
        l.advance(b).0.cycle is Waiting,
{
}

/// After a change of the global configuration a worker that runs works with
/// the new one at once: each field that the listener's own configuration
/// leaves unset has the new global value, each other field the listener's
/// own, and a new cycle begins with the fetch of the channel's page.
pub proof fn lemma_global_change_takes_effect(l: ListenerView, global: GlobalListenerConfigView)
    requires
        !l.shutdown,
        !(l.cycle is Done),
    ensures
        l.step(EventView::GlobalChanged(global)).0.cfg == l.own.merged(global),
        l.step(EventView::GlobalChanged(global)).0.own == l.own,
        l.step(EventView::GlobalChanged(global)).1 == (ActionView::Fetch { url: l.own.channel_url }),
        crate::text::unset(l.own.webhook_url) ==> l.own.merged(global).webhook_url
            == global.webhook_url,
        crate::text::unset(l.own.webhook_secret) ==> l.own.merged(global).webhook_secret
            == global.webhook_secret,
        crate::text::unset(l.own.proxy_list_url) ==> l.own.merged(global).proxy_list_url
            == global.proxy_list_url,
        l.own.poll_interval is None ==> l.own.merged(global).poll_interval == global.poll_interval,
{
}

/// Between two changes of the configuration a worker keeps it, and the
/// first call for a batch goes to the webhook URL in force, with the secret
/// in force.
pub proof fn lemma_calls_follow_configuration(l: ListenerView, event: EventView)
    requires
        l.cycle.wf(),
        !(event is GlobalChanged),
    ensures
        l.step(event).0.cfg == l.cfg,
        l.step(event).0.own == l.own,
        l.step(event).1 matches ActionView::Send { url, secret, attempt, .. } ==> {
            &&& secret == or_empty(l.cfg.webhook_secret)
            &&& attempt == 1 ==> l.cfg.webhook_url == Some(url)
        },
{
}

/// A worker that was told to stop returns at its next step, with success,
/// whatever the event; and so does one whose cancellation is reported.
pub proof fn lemma_stopped_worker_returns(l: ListenerView, event: EventView)
    requires
        l.shutdown || event is Cancelled,
    ensures
        l.step(event).1 == ActionView::Exit(Ok(())),
        l.step(event).0.cycle is Done,
        l.step(event).0.shutdown,
{
}

/// A worker that has returned stays so: every later step is an exit.
pub proof fn lemma_returned_worker_stays(l: ListenerView, event: EventView)
    requires
        l.cycle is Done,
    ensures
        l.step(event).0.cycle is Done,
        l.step(event).1 is Exit,
{
}

} // verus!
