use lark_relay::models::lark::{
    build_lark_payload, LarkElement, LarkMessage, ANNOUNCEMENT, LINK_LABEL, MENTION_ALL,
    TITLE_PREFIX,
};
use lark_relay::models::miniflux::MinifluxEntry;

fn entry(title: &str, url: &str) -> MinifluxEntry {
    MinifluxEntry { title: title.to_string(), url: url.to_string() }
}

fn describe(e: &LarkElement) -> String {
    match e {
        LarkElement::Text { text } => format!("text:{}", text),
        LarkElement::A { text, href } => format!("a:{}|{}", text, href),
        LarkElement::At { user_id } => format!("at:{}", user_id),
    }
}

fn flatten(m: &LarkMessage) -> Vec<String> {
    let mut out = vec![m.msg_type.to_string(), m.content.post.zh_cn.title.clone()];
    for line in &m.content.post.zh_cn.content {
        out.push("--".to_string());
        for e in line {
            out.push(describe(e));
        }
    }
    out
}

#[test]
fn example_entry_gives_title_and_link() {
    let m = build_lark_payload(&entry("Hello", "https://x.test/a"), "Tech");
    assert_eq!(m.content.post.zh_cn.title, format!("{}{}", TITLE_PREFIX, "Tech"));
    assert_eq!(m.content.post.zh_cn.title, "Miniflux 更新: Tech");
    let second = &m.content.post.zh_cn.content[1];
    match &second[1] {
        LarkElement::A { text, href } => {
            assert_eq!(text, "Hello");
            assert_eq!(href, "https://x.test/a");
        }
        other => panic!("expected a link, got {}", describe(other)),
    }
}

#[test]
fn message_has_the_fixed_two_line_shape() {
    let m = build_lark_payload(&entry("T", "U"), "F");
    assert_eq!(
        flatten(&m),
        vec![
            "post".to_string(),
            "Miniflux 更新: F".to_string(),
            "--".to_string(),
            format!("text:{}", ANNOUNCEMENT),
            format!("at:{}", MENTION_ALL),
            "--".to_string(),
            format!("text:{}", LINK_LABEL),
            "a:T|U".to_string(),
        ]
    );
    assert_eq!(MENTION_ALL, "all");
}

#[test]
fn empty_fields_give_empty_text() {
    let m = build_lark_payload(&MinifluxEntry::default(), "");
    assert_eq!(m.content.post.zh_cn.title, TITLE_PREFIX);
    assert_eq!(describe(&m.content.post.zh_cn.content[1][1]), "a:|");
}

#[test]
fn translation_is_repeatable() {
    let e = entry("Same", "https://x.test/same");
    let first = build_lark_payload(&e, "Feed");
    let second = build_lark_payload(&e, "Feed");
    assert_eq!(flatten(&first), flatten(&second));
}
