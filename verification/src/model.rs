//! The data that the service handles: posts, channels, pages, the rows of
//! the store and the webhook payload, each with its mathematical value.

use crate::config::{ListenerConfig, ListenerConfigView};
use crate::text::{clone_option, clone_strings};
use vstd::prelude::*;
use vstd::std_specs::convert::{FromSpec, FromSpecImpl};

verus! {

/// One reaction to a post.
#[derive(Debug, PartialEq)]
pub struct PostReaction {
    pub emoji: Option<String>,
    pub count: Option<String>,
}

/// A post as the store holds it.
#[derive(Debug)]
pub struct PostRow {
    pub id: String,
    pub author: String,
    pub text: String,
    pub media: Option<Vec<String>>,
    pub reactions: Option<Vec<PostReaction>>,
    pub views: String,
    pub date: String,
}

/// A listener as the store holds it.
#[derive(Debug)]
pub struct ListenerRow {
    pub id: String,
    pub active: bool,
    pub poll_interval: i64,
    pub channel_url: String,
    pub proxy_list_url: Option<String>,
    pub webhook_url: String,
}

/// A post of a channel.
#[derive(Debug, PartialEq)]
pub struct Post {
    pub id: String,
    pub author: Option<String>,
    pub text: Option<String>,
    pub media: Option<Vec<String>>,
    pub reactions: Option<Vec<PostReaction>>,
    pub views: Option<String>,
    pub date: Option<String>,
}

/// The counters of a channel, as the page displays them ("1.8M", "1.2k").
#[derive(Debug)]
pub struct ChannelCounters {
    pub subscribers: Option<String>,
    pub photos: Option<String>,
    pub videos: Option<String>,
    pub links: Option<String>,
}

/// A channel.
#[derive(Debug)]
pub struct Channel {
    pub id: String,
    pub name: Option<String>,
    pub image: Option<String>,
    pub counters: ChannelCounters,
    pub description: Option<String>,
}

/// What a webhook call carries: the channel and the posts that are new.
#[derive(Debug)]
pub struct WebhookPayload<'a> {
    pub channel: &'a Channel,
    pub new_posts: &'a [Post],
}

/// A parsed public page of a channel.
#[derive(Debug)]
pub struct TmePage {
    pub channel: Channel,
    pub posts: Vec<Post>,
}

/// The state of health of the service.
#[derive(Clone, Copy, Debug, PartialEq, Eq, Structural)]
pub struct Health {
    pub ok: bool,
    pub listeners: usize,
}

/// The mathematical value of a [`PostReaction`].
#[verifier::ext_equal]
pub struct PostReactionView {
    pub emoji: Option<Seq<char>>,
    pub count: Option<Seq<char>>,
}

/// The mathematical value of a [`PostRow`].
#[verifier::ext_equal]
pub struct PostRowView {
    pub id: Seq<char>,
    pub author: Seq<char>,
    pub text: Seq<char>,
    pub media: Option<Seq<Seq<char>>>,
    pub reactions: Option<Seq<PostReactionView>>,
    pub views: Seq<char>,
    pub date: Seq<char>,
}

/// The mathematical value of a [`ListenerRow`].
#[verifier::ext_equal]
pub struct ListenerRowView {
    pub id: Seq<char>,
    pub active: bool,
    pub poll_interval: i64,
    pub channel_url: Seq<char>,
    pub proxy_list_url: Option<Seq<char>>,
    pub webhook_url: Seq<char>,
}

/// The mathematical value of a [`Post`].
#[verifier::ext_equal]
pub struct PostView {
    pub id: Seq<char>,
    pub author: Option<Seq<char>>,
    pub text: Option<Seq<char>>,
    pub media: Option<Seq<Seq<char>>>,
    pub reactions: Option<Seq<PostReactionView>>,
    pub views: Option<Seq<char>>,
    pub date: Option<Seq<char>>,
}

/// The mathematical value of a [`ChannelCounters`].
#[verifier::ext_equal]
pub struct ChannelCountersView {
    pub subscribers: Option<Seq<char>>,
    pub photos: Option<Seq<char>>,
    pub videos: Option<Seq<char>>,
    pub links: Option<Seq<char>>,
}

/// The mathematical value of a [`Channel`].
#[verifier::ext_equal]
pub struct ChannelView {
    pub id: Seq<char>,
    pub name: Option<Seq<char>>,
    pub image: Option<Seq<char>>,
    pub counters: ChannelCountersView,
    pub description: Option<Seq<char>>,
}

/// The mathematical value of a [`WebhookPayload`] and of a delivery.
#[verifier::ext_equal]
pub struct WebhookPayloadView {
    pub channel: ChannelView,
    pub new_posts: Seq<PostView>,
}

/// The mathematical value of a [`TmePage`].
#[verifier::ext_equal]
pub struct TmePageView {
    pub channel: ChannelView,
    pub posts: Seq<PostView>,
}

impl View for PostReaction {
    type V = PostReactionView;

    open spec fn view(&self) -> PostReactionView {
        PostReactionView { emoji: self.emoji.deep_view(), count: self.count.deep_view() }
    }
}

impl DeepView for PostReaction {
    type V = PostReactionView;

    open spec fn deep_view(&self) -> PostReactionView {
        self@
    }
}

impl View for PostRow {
    type V = PostRowView;

    open spec fn view(&self) -> PostRowView {
        PostRowView {
            id: self.id@,
            author: self.author@,
            text: self.text@,
            media: self.media.deep_view(),
            reactions: self.reactions.deep_view(),
            views: self.views@,
            date: self.date@,
        }
    }
}

impl View for ListenerRow {
    type V = ListenerRowView;

    open spec fn view(&self) -> ListenerRowView {
        ListenerRowView {
            id: self.id@,
            active: self.active,
            poll_interval: self.poll_interval,
            channel_url: self.channel_url@,
            proxy_list_url: self.proxy_list_url.deep_view(),
            webhook_url: self.webhook_url@,
        }
    }
}

impl View for Post {
    type V = PostView;

    open spec fn view(&self) -> PostView {
        PostView {
            id: self.id@,
            author: self.author.deep_view(),
            text: self.text.deep_view(),
            media: self.media.deep_view(),
            reactions: self.reactions.deep_view(),
            views: self.views.deep_view(),
            date: self.date.deep_view(),
        }
    }
}

impl DeepView for Post {
    type V = PostView;

    open spec fn deep_view(&self) -> PostView {
        self@
    }
}

impl View for ChannelCounters {
    type V = ChannelCountersView;

    open spec fn view(&self) -> ChannelCountersView {
        ChannelCountersView {
            subscribers: self.subscribers.deep_view(),
            photos: self.photos.deep_view(),
            videos: self.videos.deep_view(),
            links: self.links.deep_view(),
        }
    }
}

impl View for Channel {
    type V = ChannelView;

    open spec fn view(&self) -> ChannelView {
        ChannelView {
            id: self.id@,
            name: self.name.deep_view(),
            image: self.image.deep_view(),
            counters: self.counters@,
            description: self.description.deep_view(),
        }
    }
}

impl<'a> View for WebhookPayload<'a> {
    type V = WebhookPayloadView;

    open spec fn view(&self) -> WebhookPayloadView {
        WebhookPayloadView { channel: self.channel@, new_posts: self.new_posts.deep_view() }
    }
}

impl View for TmePage {
    type V = TmePageView;

    open spec fn view(&self) -> TmePageView {
        TmePageView { channel: self.channel@, posts: self.posts.deep_view() }
    }
}

impl PostRowView {
    /// The post that a row of the store stands for: every text column is
    /// present in it.
    pub open spec fn post(self) -> PostView {
        PostView {
            id: self.id,
            author: Some(self.author),
            text: Some(self.text),
            media: self.media,
            reactions: self.reactions,
            views: Some(self.views),
            date: Some(self.date),
        }
    }
}

impl ListenerRowView {
    /// The listener configuration that a row of the store stands for; the
    /// store keeps no secret.
    pub open spec fn config(self) -> ListenerConfigView {
        ListenerConfigView {
            id: self.id,
            poll_interval: Some(self.poll_interval),
            channel_url: self.channel_url,
            proxy_list_url: self.proxy_list_url,
            webhook_url: Some(self.webhook_url),
            webhook_secret: None,
        }
    }
}

impl ListenerConfigView {
    /// The row that records an effective configuration, which has a webhook
    /// URL: the row is active, holds the poll interval in force and no
    /// secret.
    pub open spec fn row(self) -> ListenerRowView
        recommends
            self.webhook_url is Some,
    {
        ListenerRowView {
            id: self.id,
            active: true,
            poll_interval: self.interval(),
            channel_url: self.channel_url,
            proxy_list_url: self.proxy_list_url,
            webhook_url: self.webhook_url->0,
        }
    }
}

impl Clone for PostReaction {
    fn clone(&self) -> (r: Self)
        ensures
            r@ == self@,
    {
        PostReaction { emoji: clone_option(&self.emoji), count: clone_option(&self.count) }
    }
}

/// A copy of a list of reactions.
pub fn clone_reactions(v: &Vec<PostReaction>) -> (r: Vec<PostReaction>)
    ensures
        r.deep_view() == v.deep_view(),
{
    let mut r: Vec<PostReaction> = Vec::new();
    let mut i: usize = 0;
    while i < v.len()
        invariant
            i <= v.len(),
            r.len() == i,
            forall|j: int| 0 <= j < i ==> r@[j]@ == v@[j]@,
        decreases v.len() - i,
    {
        r.push(v[i].clone());
        i = i + 1;
    }
    assert(r.deep_view() =~= v.deep_view());
    r
}

impl Clone for Post {
    fn clone(&self) -> (r: Self)
        ensures
            r@ == self@,
    {
        Post {
            id: self.id.clone(),
            author: clone_option(&self.author),
            text: clone_option(&self.text),
            media: match &self.media {
                Some(list) => Some(clone_strings(list)),
                None => None,
            },
            reactions: match &self.reactions {
                Some(list) => Some(clone_reactions(list)),
                None => None,
            },
            views: clone_option(&self.views),
            date: clone_option(&self.date),
        }
    }
}

/// A copy of a list of posts.
pub fn clone_posts(v: &Vec<Post>) -> (r: Vec<Post>)
    ensures
        r.deep_view() == v.deep_view(),
{
    let mut r: Vec<Post> = Vec::new();
    let mut i: usize = 0;
    while i < v.len()
        invariant
            i <= v.len(),
            r.len() == i,
            forall|j: int| 0 <= j < i ==> r@[j]@ == v@[j]@,
        decreases v.len() - i,
    {
        r.push(v[i].clone());
        i = i + 1;
    }
    assert(r.deep_view() =~= v.deep_view());
    r
}

impl Clone for ChannelCounters {
    fn clone(&self) -> (r: Self)
        ensures
            r@ == self@,
    {
        ChannelCounters {
            subscribers: clone_option(&self.subscribers),
            photos: clone_option(&self.photos),
            videos: clone_option(&self.videos),
            links: clone_option(&self.links),
        }
    }
}

impl Clone for Channel {
    fn clone(&self) -> (r: Self)
        ensures
            r@ == self@,
    {
        Channel {
            id: self.id.clone(),
            name: clone_option(&self.name),
            image: clone_option(&self.image),
            counters: self.counters.clone(),
            description: clone_option(&self.description),
        }
    }
}

impl<'a> WebhookPayload<'a> {
    /// The payload for a channel and its new posts.
    pub fn new(channel: &'a Channel, new_posts: &'a [Post]) -> (payload: Self)
        ensures
            payload@ == (WebhookPayloadView {
                channel: channel@,
                new_posts: new_posts.deep_view(),
            }),
    {
        WebhookPayload { channel, new_posts }
    }
}

impl Clone for ListenerRow {
    fn clone(&self) -> (r: Self)
        ensures
            r@ == self@,
    {
        ListenerRow {
            id: self.id.clone(),
            active: self.active,
            poll_interval: self.poll_interval,
            channel_url: self.channel_url.clone(),
            proxy_list_url: clone_option(&self.proxy_list_url),
            webhook_url: self.webhook_url.clone(),
        }
    }
}

impl From<PostRow> for Post {
    fn from(row: PostRow) -> (post: Post) {
        Post {
            id: row.id,
            author: Some(row.author),
            text: Some(row.text),
            media: row.media,
            reactions: row.reactions,
            views: Some(row.views),
            date: Some(row.date),
        }
    }
}

impl FromSpecImpl<PostRow> for Post {
    open spec fn obeys_from_spec() -> bool {
        true
    }

    open spec fn from_spec(row: PostRow) -> Post {
        Post {
            id: row.id,
            author: Some(row.author),
            text: Some(row.text),
            media: row.media,
            reactions: row.reactions,
            views: Some(row.views),
            date: Some(row.date),
        }
    }
}

impl From<ListenerRow> for ListenerConfig {
    fn from(row: ListenerRow) -> (cfg: ListenerConfig) {
        ListenerConfig {
            id: row.id,
            poll_interval: Some(row.poll_interval),
            channel_url: row.channel_url,
            proxy_list_url: row.proxy_list_url,
            webhook_url: Some(row.webhook_url),
            webhook_secret: None,
        }
    }
}

impl FromSpecImpl<ListenerRow> for ListenerConfig {
    open spec fn obeys_from_spec() -> bool {
        true
    }

    open spec fn from_spec(row: ListenerRow) -> ListenerConfig {
        ListenerConfig {
            id: row.id,
            poll_interval: Some(row.poll_interval),
            channel_url: row.channel_url,
            proxy_list_url: row.proxy_list_url,
            webhook_url: Some(row.webhook_url),
            webhook_secret: None,
        }
    }
}

impl ListenerRow {
    /// The row that records an effective configuration. The configuration
    /// has a poll interval and a webhook URL.
    pub fn from(cfg: ListenerConfig) -> (row: ListenerRow)
        requires
            cfg.poll_interval is Some,
            cfg.webhook_url is Some,
        ensures
            row@ == cfg@.row(),
    {
        ListenerRow {
            id: cfg.id,
            active: true,
            poll_interval: cfg.poll_interval.unwrap(),
            channel_url: cfg.channel_url,
            proxy_list_url: cfg.proxy_list_url,
            webhook_url: cfg.webhook_url.unwrap(),
        }
    }
}

/// The post of a row has the row's value.
pub proof fn lemma_post_of_row(row: PostRow)
    ensures
        <Post as FromSpec<PostRow>>::from_spec(row)@ == row@.post(),
{
}

/// The configuration of a row has the row's value.
pub proof fn lemma_config_of_row(row: ListenerRow)
    ensures
        <ListenerConfig as FromSpec<ListenerRow>>::from_spec(row)@ == row@.config(),
{
}

} // verus!
