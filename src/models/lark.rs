//! The chat service's rich-message document, and the translation of one
//! feed entry into it.
use vstd::prelude::*;

use crate::models::miniflux::MinifluxEntry;

verus! {

/// The kind of message the chat service is sent.
pub const MSG_TYPE_POST: &'static str = "post";

/// Put before the feed's title to make the document's title.
pub const TITLE_PREFIX: &'static str = "Miniflux 更新: ";

/// The announcement that opens the first line.
pub const ANNOUNCEMENT: &'static str = "有新的订阅文章到达，请查收！";

/// The mention target that reaches everyone in the chat.
pub const MENTION_ALL: &'static str = "all";

/// The label that opens the second line, before the article's link.
pub const LINK_LABEL: &'static str = "文章标题: ";

/// The top of the document that the chat service receives.
pub struct LarkMessage {
    pub msg_type: &'static str,
    pub content: LarkContent,
}

pub struct LarkContent {
    pub post: LarkPost,
}

pub struct LarkPost {
    pub zh_cn: LarkLanguageContent,
}

/// A titled post: lines of inline elements, in order.
pub struct LarkLanguageContent {
    pub title: String,
    pub content: Vec<Vec<LarkElement>>,
}

/// One inline element of a line.
pub enum LarkElement {
    Text { text: String },
    A { text: String, href: String },
    At { user_id: String },
}

/// What an inline element is, as text.
pub enum ElementView {
    PlainText { text: Seq<char> },
    Hyperlink { text: Seq<char>, href: Seq<char> },
    Mention { target: Seq<char> },
}

/// What a message is: its type, its title and its lines of elements.
pub struct MessageView {
    pub msg_type: Seq<char>,
    pub title: Seq<char>,
    pub lines: Seq<Seq<ElementView>>,
}

impl View for LarkElement {
    type V = ElementView;

    open spec fn view(&self) -> ElementView {
        match self {
            LarkElement::Text { text } => ElementView::PlainText { text: text@ },
            LarkElement::A { text, href } => ElementView::Hyperlink { text: text@, href: href@ },
            LarkElement::At { user_id } => ElementView::Mention { target: user_id@ },
        }
    }
}

/// The elements of one line, as text.
pub open spec fn line_view(line: Vec<LarkElement>) -> Seq<ElementView> {
    line@.map_values(|e: LarkElement| e@)
}

impl View for LarkMessage {
    type V = MessageView;

    open spec fn view(&self) -> MessageView {
        MessageView {
            msg_type: self.msg_type@,
            title: self.content.post.zh_cn.title@,
            lines: self.content.post.zh_cn.content@.map_values(|l: Vec<LarkElement>| line_view(l)),
        }
    }
}

/// The announcement of one article of a feed: the title is the prefix and
/// the feed's title; the first line is the announcement and a mention of
/// everyone; the second is the label and a link whose text is the article's
/// title and whose target is its address.
pub open spec fn payload_of(title: Seq<char>, url: Seq<char>, feed_title: Seq<char>) -> MessageView {
    MessageView {
        msg_type: MSG_TYPE_POST@,
        title: TITLE_PREFIX@ + feed_title,
        lines: seq![
            seq![
                ElementView::PlainText { text: ANNOUNCEMENT@ },
                ElementView::Mention { target: MENTION_ALL@ },
            ],
            seq![
                ElementView::PlainText { text: LINK_LABEL@ },
                ElementView::Hyperlink { text: title, href: url },
            ],
        ],
    }
}

/// Translates one entry of a feed into the message that announces it.
/// Nothing can fail: empty fields give empty text.
pub fn build_lark_payload(entry: &MinifluxEntry, feed_title: &str) -> (r: LarkMessage)
    ensures
        r@ == payload_of(entry.title@, entry.url@, feed_title@),
{
    let mut title = TITLE_PREFIX.to_owned();
    title.append(feed_title);

    let mut first: Vec<LarkElement> = Vec::new();
    first.push(LarkElement::Text { text: ANNOUNCEMENT.to_owned() });
    first.push(LarkElement::At { user_id: MENTION_ALL.to_owned() });

    let mut second: Vec<LarkElement> = Vec::new();
    second.push(LarkElement::Text { text: LINK_LABEL.to_owned() });
    second.push(LarkElement::A { text: entry.title.clone(), href: entry.url.clone() });

    let mut content: Vec<Vec<LarkElement>> = Vec::new();
    content.push(first);
    content.push(second);

    let r = LarkMessage {
        msg_type: MSG_TYPE_POST,
        content: LarkContent {
            post: LarkPost { zh_cn: LarkLanguageContent { title, content } },
        },
    };
    proof {
        let want = payload_of(entry.title@, entry.url@, feed_title@);
        assert(line_view(r.content.post.zh_cn.content@[0]) =~= want.lines[0]);
        assert(line_view(r.content.post.zh_cn.content@[1]) =~= want.lines[1]);
        assert(r@.lines =~= want.lines);
    }
    r
}

/// Translation depends on nothing but its inputs: two entries with the same
/// title and address, of feeds with the same title, are translated into the
/// same message.
pub proof fn lemma_translation_is_deterministic(
    a: MinifluxEntry,
    b: MinifluxEntry,
    feed_a: Seq<char>,
    feed_b: Seq<char>,
)
    requires
        a.title@ == b.title@,
        a.url@ == b.url@,
        feed_a == feed_b,
    ensures
        payload_of(a.title@, a.url@, feed_a) == payload_of(b.title@, b.url@, feed_b),
{
}

} // verus!
