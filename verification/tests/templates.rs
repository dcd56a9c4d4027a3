use rusant::templates::{ArticleItemTemplate, FeedItemTemplate};
use rusant::utils::UiState;

#[test]
fn ui_state_starts_normal() {
    assert_eq!(UiState::default(), UiState::NORMAL);
}

#[test]
fn article_properties() {
    let mut a = ArticleItemTemplate::default();
    assert_eq!(a.property("title"), "");
    a.set_property("title", String::from("Release"));
    a.set_property("summary", String::from("Rusant 0.0.1 is out"));
    assert_eq!(a.property("title"), "Release");
    assert_eq!(a.property("summary"), "Rusant 0.0.1 is out");
}

#[test]
fn feed_properties() {
    let mut f = FeedItemTemplate::default();
    f.set_property("url", String::from("https://example.org/feed"));
    assert_eq!(f.property("name"), "");
    f.set_property("name", String::from("Example"));
    assert_eq!(f.property("name"), "Example");
    assert_eq!(f.property("url"), "https://example.org/feed");
}
