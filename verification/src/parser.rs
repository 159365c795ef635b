//! Reading the public page of a channel: the channel's description and the
//! posts that the page shows, in the order of the page.

use crate::html::{
    attr_of, convert, document_matches, document_of, element_attr, element_inner_html,
    element_matches, element_text, inner_html_of, markdown_of, parse_document, select_in_document,
    select_in_element, text_of,
};
use crate::model::{
    Channel, ChannelCounters, ChannelCountersView, ChannelView, Post, PostReaction,
    PostReactionView, PostView, TmePage, TmePageView,
};
use crate::text::{
    chars_of, find, find_from, or_empty, remove_all, string_of, trim, trimmed, without,
};
use scraper::ElementRef;
use vstd::prelude::*;

verus! {

/// Why a page cannot be read.
#[derive(Clone, Copy, Debug, PartialEq, Eq, Structural)]
pub enum ParseError {
    /// The channel block names no channel.
    MissingChannelId,
    /// The channel block has no counters.
    MissingCounters,
    /// The channel's image has no source.
    MissingImageSource,
    /// A post block holds no message.
    MissingMessage,
    /// A message carries no post id.
    MissingPostId,
    /// A piece of HTML could not be converted to markdown.
    Markdown,
}

/// The first of the elements found, if any.
pub open spec fn first(found: Seq<ElementRef>) -> Option<ElementRef> {
    if found.len() > 0 {
        Some(found[0])
    } else {
        None
    }
}

/// The text of the first descendant of `el` that matches `selector`.
pub open spec fn text_at(el: ElementRef, selector: Seq<char>) -> Option<Seq<char>> {
    match first(element_matches(el, selector)) {
        Some(e) => Some(element_text(e)),
        None => None,
    }
}

/// The markdown for the outcome of a conversion: a failed conversion is an
/// error, and a result without content is empty text.
pub open spec fn markdown(converted: Option<Option<Seq<char>>>) -> Result<Seq<char>, ParseError> {
    match converted {
        None => Err(ParseError::Markdown),
        Some(None) => Ok(Seq::empty()),
        Some(Some(text)) => Ok(text),
    }
}

/// The markdown of the children of the first descendant of `el` that matches
/// `selector`; nothing where there is no such descendant.
pub open spec fn markdown_at(el: ElementRef, selector: Seq<char>) -> Result<
    Option<Seq<char>>,
    ParseError,
> {
    match first(element_matches(el, selector)) {
        None => Ok(None),
        Some(e) => match markdown(markdown_of(element_inner_html(e))) {
            Ok(text) => Ok(Some(text)),
            Err(e) => Err(e),
        },
    }
}

/// The URL that an inline style names as `url('...')`: the text between the
/// first `url('` and the first `')` after it.
pub open spec fn media_url(style: Seq<char>) -> Option<Seq<char>> {
    match find_from(style, "url('"@, 0) {
        None => None,
        Some(open) => {
            let start = open + "url('"@.len();
            match find_from(style, "')"@, start) {
                None => None,
                Some(end) => Some(style.subrange(start, end)),
            }
        },
    }
}

/// The media URL of one media element, read from its `style` attribute.
pub open spec fn media_of(el: ElementRef) -> Option<Seq<char>> {
    match element_attr(el, "style"@) {
        Some(style) => media_url(style),
        None => None,
    }
}

/// The media URLs of the elements, in order, leaving out those without one.
pub open spec fn media_urls(els: Seq<ElementRef>) -> Seq<Seq<char>>
    decreases els.len(),
{
    if els.len() == 0 {
        Seq::empty()
    } else {
        match media_of(els.last()) {
            Some(url) => media_urls(els.drop_last()).push(url),
            None => media_urls(els.drop_last()),
        }
    }
}

/// A reaction, from the whole text of its element and the text of the emoji
/// in it: the emoji is "unknown" where the element shows none, and the count
/// is what is left of the whole text without the emoji, trimmed.
pub open spec fn reaction(whole: Seq<char>, emoji: Option<Seq<char>>) -> PostReactionView {
    let glyph = match emoji {
        Some(e) => e,
        None => "unknown"@,
    };
    PostReactionView { emoji: Some(glyph), count: Some(trimmed(without(whole, glyph))) }
}

/// The reactions that the elements show, in order.
pub open spec fn reactions_of(els: Seq<ElementRef>) -> Seq<PostReactionView> {
    Seq::new(els.len(), |i: int| reaction(element_text(els[i]), text_at(els[i], "i.emoji b"@)))
}

/// The counters after one more counter block: a block of a known kind sets
/// that counter, and one of another kind changes nothing.
pub open spec fn recorded(counters: ChannelCountersView, kind: Seq<char>, value: Seq<char>) -> ChannelCountersView {
    if kind == "subscriber"@ || kind == "subscribers"@ {
        ChannelCountersView { subscribers: Some(value), ..counters }
    } else if kind == "photo"@ || kind == "photos"@ {
        ChannelCountersView { photos: Some(value), ..counters }
    } else if kind == "video"@ || kind == "videos"@ {
        ChannelCountersView { videos: Some(value), ..counters }
    } else if kind == "link"@ || kind == "links"@ {
        ChannelCountersView { links: Some(value), ..counters }
    } else {
        counters
    }
}

/// The counters that the blocks show; a later block of a kind overrides an
/// earlier one.
pub open spec fn counters_of(blocks: Seq<ElementRef>) -> ChannelCountersView
    decreases blocks.len(),
{
    if blocks.len() == 0 {
        ChannelCountersView { subscribers: None, photos: None, videos: None, links: None }
    } else {
        recorded(
            counters_of(blocks.drop_last()),
            or_empty(text_at(blocks.last(), "span.counter_type"@)),
            or_empty(text_at(blocks.last(), "span.counter_value"@)),
        )
    }
}

/// The channel that a channel block describes.
pub open spec fn channel_of(el: ElementRef) -> Result<ChannelView, ParseError> {
    match text_at(el, "div.tgme_channel_info_header_username a"@) {
        None => Err(ParseError::MissingChannelId),
        Some(handle) => match first(element_matches(el, "div.tgme_channel_info_counters"@)) {
            None => Err(ParseError::MissingCounters),
            Some(counters) => match image_of(el) {
                Err(e) => Err(e),
                Ok(image) => match markdown_at(el, "div.tgme_channel_info_description"@) {
                    Err(e) => Err(e),
                    Ok(description) => Ok(
                        ChannelView {
                            id: without(handle, "@"@),
                            name: text_at(el, "div.tgme_channel_info_header_title span"@),
                            image,
                            counters: counters_of(
                                element_matches(counters, "div.tgme_channel_info_counter"@),
                            ),
                            description,
                        },
                    ),
                },
            },
        },
    }
}

/// The source of the channel's image; an image without a source is an error.
pub open spec fn image_of(el: ElementRef) -> Result<Option<Seq<char>>, ParseError> {
    match first(element_matches(el, "i.tgme_page_photo_image img"@)) {
        None => Ok(None),
        Some(img) => match element_attr(img, "src"@) {
            Some(src) => Ok(Some(src)),
            None => Err(ParseError::MissingImageSource),
        },
    }
}

/// The id of the post in a post block: the `data-post` attribute of its
/// message.
pub open spec fn post_id_of(el: ElementRef) -> Result<Seq<char>, ParseError> {
    match first(element_matches(el, "div.tgme_widget_message"@)) {
        None => Err(ParseError::MissingMessage),
        Some(message) => match element_attr(message, "data-post"@) {
            Some(id) => Ok(id),
            None => Err(ParseError::MissingPostId),
        },
    }
}

/// The date of the post in a post block.
pub open spec fn date_of(el: ElementRef) -> Option<Seq<char>> {
    match first(element_matches(el, "a.tgme_widget_message_date time"@)) {
        Some(time) => element_attr(time, "datetime"@),
        None => None,
    }
}

/// The post that a post block shows. Each part that the block lacks is
/// absent in the post; media are absent where the block shows none.
pub open spec fn post_of(el: ElementRef) -> Result<PostView, ParseError> {
    match post_id_of(el) {
        Err(e) => Err(e),
        Ok(id) => match markdown_at(el, "div.tgme_widget_message_text"@) {
            Err(e) => Err(e),
            Ok(text) => {
                let media = media_urls(element_matches(el, "a.tgme_widget_message_photo_wrap"@));
                Ok(
                    PostView {
                        id,
                        author: text_at(
                            el,
                            "div.tgme_widget_message_author a.tgme_widget_message_owner_name span"@,
                        ),
                        text,
                        media: if media.len() > 0 {
                            Some(media)
                        } else {
                            None
                        },
                        reactions: match first(
                            element_matches(el, "div.tgme_widget_message_reactions"@),
                        ) {
                            Some(r) => Some(reactions_of(element_matches(r, "span.tgme_reaction"@))),
                            None => None,
                        },
                        views: text_at(el, "span.tgme_widget_message_views"@),
                        date: date_of(el),
                    },
                )
            },
        },
    }
}

/// The posts that the post blocks show, in order, or the first error.
pub open spec fn posts_of(blocks: Seq<ElementRef>) -> Result<Seq<PostView>, ParseError>
    decreases blocks.len(),
{
    if blocks.len() == 0 {
        Ok(Seq::empty())
    } else {
        match posts_of(blocks.drop_last()) {
            Err(e) => Err(e),
            Ok(posts) => match post_of(blocks.last()) {
                Err(e) => Err(e),
                Ok(post) => Ok(posts.push(post)),
            },
        }
    }
}

/// The page that a document holds: none where it has no channel block, else
/// the channel and every post block's post, in the order of the page.
pub open spec fn page_of(doc: scraper::Html) -> Result<Option<TmePageView>, ParseError> {
    match first(document_matches(doc, "div.tgme_channel_info"@)) {
        None => Ok(None),
        Some(info) => match channel_of(info) {
            Err(e) => Err(e),
            Ok(channel) => match posts_of(document_matches(doc, "div.tgme_widget_message_wrap"@)) {
                Err(e) => Err(e),
                Ok(posts) => Ok(Some(TmePageView { channel, posts })),
            },
        },
    }
}

/// The value of the outcome of reading a page.
pub open spec fn page_view(r: Result<Option<TmePage>, ParseError>) -> Result<
    Option<TmePageView>,
    ParseError,
> {
    match r {
        Ok(Some(page)) => Ok(Some(page@)),
        Ok(None) => Ok(None),
        Err(e) => Err(e),
    }
}

/// The first descendant of `el` that matches `selector`.
fn select_first<'a>(el: ElementRef<'a>, selector: &str) -> (r: Option<ElementRef<'a>>)
    ensures
        r == first(element_matches(el, selector@)),
{
    let found = select_in_element(el, selector);
    if found.len() > 0 {
        Some(found[0])
    } else {
        None
    }
}

/// The text of the first descendant of `el` that matches `selector`.
fn select_text(el: ElementRef, selector: &str) -> (r: Option<String>)
    ensures
        r.deep_view() == text_at(el, selector@),
{
    match select_first(el, selector) {
        Some(e) => Some(text_of(e)),
        None => None,
    }
}

/// The markdown for the outcome of a conversion.
pub fn markdown_text<E>(converted: Result<Option<String>, E>) -> (r: Result<String, ParseError>)
    ensures
        match r {
            Ok(text) => converted matches Ok(content) && text@ == or_empty(content.deep_view()),
            Err(e) => converted is Err && e == ParseError::Markdown,
        },
{
    match converted {
        Err(_) => Err(ParseError::Markdown),
        Ok(None) => Ok(String::new()),
        Ok(Some(text)) => Ok(text),
    }
}

/// The markdown of the children of the first descendant of `el` that matches
/// `selector`.
fn select_markdown(el: ElementRef, selector: &str) -> (r: Result<Option<String>, ParseError>)
    ensures
        match r {
            Ok(text) => markdown_at(el, selector@) == Ok::<_, ParseError>(text.deep_view()),
            Err(e) => markdown_at(el, selector@) == Err::<Option<Seq<char>>, _>(e),
        },
{
    match select_first(el, selector) {
        None => Ok(None),
        Some(e) => {
            let html = inner_html_of(e);
            match markdown_text(convert(html.as_str())) {
                Ok(text) => Ok(Some(text)),
                Err(e) => Err(e),
            }
        },
    }
}

/// The URL that an inline style names as `url('...')`.
pub fn parse_media(style: &str) -> (r: Option<String>)
    ensures
        r.deep_view() == media_url(style@),
{
    let chars = chars_of(style);
    let opening = chars_of("url('");
    let closing = chars_of("')");
    match find(&chars, &opening, 0) {
        None => None,
        Some(open) => {
            let start = open + opening.len();
            match find(&chars, &closing, start) {
                None => None,
                Some(end) => Some(string_of(&chars, start, end)),
            }
        },
    }
}

/// The media URLs of the media elements of a post.
fn read_media(els: &Vec<ElementRef>) -> (r: Vec<String>)
    ensures
        r.deep_view() == media_urls(els@),
{
    let mut urls: Vec<String> = Vec::new();
    let mut i: usize = 0;
    assert(els@.take(0) =~= Seq::<ElementRef>::empty());
    assert(urls.deep_view() =~= media_urls(els@.take(0)));
    while i < els.len()
        invariant
            i <= els.len(),
            urls.deep_view() == media_urls(els@.take(i as int)),
        decreases els.len() - i,
    {
        let ghost before = urls.deep_view();
        proof {
            assert(els@.take(i + 1).drop_last() =~= els@.take(i as int));
            assert(els@.take(i + 1).last() == els@[i as int]);
        }
        let url = match attr_of(els[i], "style") {
            Some(style) => parse_media(style.as_str()),
            None => None,
        };
        match url {
            Some(u) => {
                urls.push(u);
                assert(urls.deep_view() =~= before.push(u@));
            },
            None => {},
        }
        i = i + 1;
    }
    assert(els@.take(els.len() as int) =~= els@);
    urls
}

/// A reaction, from the whole text of its element and the text of the emoji
/// in it.
pub fn parse_reaction(whole: &str, emoji: Option<String>) -> (r: PostReaction)
    ensures
        r@ == reaction(whole@, emoji.deep_view()),
{
    let glyph = match emoji {
        Some(e) => e,
        None => String::from_str("unknown"),
    };
    let rest = remove_all(whole, glyph.as_str());
    let count = trim(rest.as_str());
    PostReaction { emoji: Some(glyph), count: Some(count) }
}

/// The reactions that a reactions block shows.
fn parse_reactions(container: ElementRef) -> (r: Vec<PostReaction>)
    ensures
        r.deep_view() == reactions_of(element_matches(container, "span.tgme_reaction"@)),
{
    let els = select_in_element(container, "span.tgme_reaction");
    let mut data: Vec<PostReaction> = Vec::new();
    let mut i: usize = 0;
    while i < els.len()
        invariant
            i <= els.len(),
            data.len() == i,
            forall|j: int|
                0 <= j < i ==> data@[j]@ == reaction(
                    element_text(els@[j]),
                    text_at(els@[j], "i.emoji b"@),
                ),
        decreases els.len() - i,
    {
        let emoji = select_text(els[i], "i.emoji b");
        let whole = text_of(els[i]);
        data.push(parse_reaction(whole.as_str(), emoji));
        i = i + 1;
    }
    assert(data.deep_view() =~= reactions_of(els@));
    data
}

impl ChannelCounters {
    /// No counter is known.
    pub fn new() -> (r: ChannelCounters)
        ensures
            r@ == (ChannelCountersView {
                subscribers: None,
                photos: None,
                videos: None,
                links: None,
            }),
    {
        ChannelCounters { subscribers: None, photos: None, videos: None, links: None }
    }

    /// Takes in one counter block: one whose kind is "subscriber", "photo",
    /// "video" or "link", or the plural of one of these, sets that counter;
    /// any other kind changes nothing.
    pub fn record(&mut self, kind: &str, value: String)
        ensures
            final(self)@ == recorded(old(self)@, kind@, value@),
    {
        let kind = String::from_str(kind);
        if kind == String::from_str("subscriber") || kind == String::from_str("subscribers") {
            self.subscribers = Some(value);
        } else if kind == String::from_str("photo") || kind == String::from_str("photos") {
            self.photos = Some(value);
        } else if kind == String::from_str("video") || kind == String::from_str("videos") {
            self.videos = Some(value);
        } else if kind == String::from_str("link") || kind == String::from_str("links") {
            self.links = Some(value);
        }
    }
}

/// The counters that a counters block shows.
fn parse_counters(container: ElementRef) -> (r: ChannelCounters)
    ensures
        r@ == counters_of(element_matches(container, "div.tgme_channel_info_counter"@)),
{
    let blocks = select_in_element(container, "div.tgme_channel_info_counter");
    let mut data = ChannelCounters::new();
    let mut i: usize = 0;
    assert(blocks@.take(0) =~= Seq::<ElementRef>::empty());
    while i < blocks.len()
        invariant
            i <= blocks.len(),
            data@ == counters_of(blocks@.take(i as int)),
        decreases blocks.len() - i,
    {
        proof {
            assert(blocks@.take(i + 1).drop_last() =~= blocks@.take(i as int));
            assert(blocks@.take(i + 1).last() == blocks@[i as int]);
        }
        let value = match select_text(blocks[i], "span.counter_value") {
            Some(v) => v,
            None => String::new(),
        };
        let kind = match select_text(blocks[i], "span.counter_type") {
            Some(k) => k,
            None => String::new(),
        };
        data.record(kind.as_str(), value);
        i = i + 1;
    }
    assert(blocks@.take(blocks.len() as int) =~= blocks@);
    data
}

/// The channel that a channel block describes.
fn parse_channel(channel: ElementRef) -> (r: Result<Channel, ParseError>)
    ensures
        match r {
            Ok(c) => channel_of(channel) == Ok::<_, ParseError>(c@),
            Err(e) => channel_of(channel) == Err::<ChannelView, _>(e),
        },
{
    let handle = match select_text(channel, "div.tgme_channel_info_header_username a") {
        Some(h) => h,
        None => return Err(ParseError::MissingChannelId),
    };
    let id = remove_all(handle.as_str(), "@");
    let counters = match select_first(channel, "div.tgme_channel_info_counters") {
        Some(c) => parse_counters(c),
        None => return Err(ParseError::MissingCounters),
    };
    let name = select_text(channel, "div.tgme_channel_info_header_title span");
    let image = match select_first(channel, "i.tgme_page_photo_image img") {
        None => None,
        Some(img) => match attr_of(img, "src") {
            Some(src) => Some(src),
            None => return Err(ParseError::MissingImageSource),
        },
    };
    let description = match select_markdown(channel, "div.tgme_channel_info_description") {
        Ok(d) => d,
        Err(e) => return Err(e),
    };
    Ok(Channel { id, name, image, counters, description })
}

/// The post that a post block shows.
fn parse_post(post: ElementRef) -> (r: Result<Post, ParseError>)
    ensures
        match r {
            Ok(p) => post_of(post) == Ok::<_, ParseError>(p@),
            Err(e) => post_of(post) == Err::<PostView, _>(e),
        },
{
    let message = match select_first(post, "div.tgme_widget_message") {
        Some(m) => m,
        None => return Err(ParseError::MissingMessage),
    };
    let id = match attr_of(message, "data-post") {
        Some(id) => id,
        None => return Err(ParseError::MissingPostId),
    };
    let author = select_text(
        post,
        "div.tgme_widget_message_author a.tgme_widget_message_owner_name span",
    );
    let text = match select_markdown(post, "div.tgme_widget_message_text") {
        Ok(t) => t,
        Err(e) => return Err(e),
    };
    let media_els = select_in_element(post, "a.tgme_widget_message_photo_wrap");
    let media_vec = read_media(&media_els);
    let media = if media_vec.len() > 0 {
        Some(media_vec)
    } else {
        None
    };
    let reactions = match select_first(post, "div.tgme_widget_message_reactions") {
        Some(r) => Some(parse_reactions(r)),
        None => None,
    };
    let views = select_text(post, "span.tgme_widget_message_views");
    let date = match select_first(post, "a.tgme_widget_message_date time") {
        Some(time) => attr_of(time, "datetime"),
        None => None,
    };
    Ok(Post { id, author, text, media, reactions, views, date })
}

/// Reads the public page of a channel.
///
/// Returns no page where the text holds no channel block, else the channel
/// and every post that the page shows, in the order of the page. A post
/// lacks each part that its block does not show.
pub fn parse_page(html: &str) -> (r: Result<Option<TmePage>, ParseError>)
    ensures
        page_view(r) == page_of(document_of(html@)),
{
    let document = parse_document(html);
    let infos = select_in_document(&document, "div.tgme_channel_info");
    if infos.len() == 0 {
        return Ok(None);
    }
    let channel = match parse_channel(infos[0]) {
        Ok(c) => c,
        Err(e) => return Err(e),
    };
    let blocks = select_in_document(&document, "div.tgme_widget_message_wrap");
    let mut posts: Vec<Post> = Vec::new();
    let mut i: usize = 0;
    assert(blocks@.take(0) =~= Seq::<ElementRef>::empty());
    assert(posts.deep_view() =~= Seq::<PostView>::empty());
    while i < blocks.len()
        invariant
            i <= blocks.len(),
            infos@ == document_matches(document_of(html@), "div.tgme_channel_info"@),
            infos.len() > 0,
            channel_of(infos@[0]) == Ok::<_, ParseError>(channel@),
            blocks@ == document_matches(document_of(html@), "div.tgme_widget_message_wrap"@),
            posts_of(blocks@.take(i as int)) == Ok::<_, ParseError>(posts.deep_view()),
        decreases blocks.len() - i,
    {
        let ghost before = posts.deep_view();
        proof {
            assert(blocks@.take(i + 1).drop_last() =~= blocks@.take(i as int));
            assert(blocks@.take(i + 1).last() == blocks@[i as int]);
        }
        match parse_post(blocks[i]) {
            Ok(p) => {
                posts.push(p);
                assert(posts.deep_view() =~= before.push(p@));
            },
            Err(e) => {
                proof {
                    assert(posts_of(blocks@.take(i + 1)) == Err::<Seq<PostView>, _>(e));
                    lemma_posts_error_stays(blocks@, i + 1);
                }
                return Err(e);
            },
        }
        i = i + 1;
    }
    assert(blocks@.take(blocks.len() as int) =~= blocks@);
    Ok(Some(TmePage { channel, posts }))
}

/// An error among the first `n` post blocks is the error of them all.
pub proof fn lemma_posts_error_stays(blocks: Seq<ElementRef>, n: int)
    requires
        0 <= n <= blocks.len(),
        posts_of(blocks.take(n)) is Err,
    ensures
        posts_of(blocks) == posts_of(blocks.take(n)),
    decreases blocks.len() - n,
{
    if n < blocks.len() {
        assert(blocks.take(n + 1).drop_last() =~= blocks.take(n));
        lemma_posts_error_stays(blocks, n + 1);
    } else {
        assert(blocks.take(n) =~= blocks);
    }
}

} // verus!
