use vstd::prelude::*;

verus! {

/// The state of an article of a feed: its title and summary, read and written as the
/// object properties "title" and "summary".
pub struct ArticleItemTemplate {
    title: String,
    summary: String,
}

/// Whether an article has a property of this name.
pub open spec fn is_article_property(name: Seq<char>) -> bool {
    name == "title"@ || name == "summary"@
}

impl ArticleItemTemplate {
    /// The article's title.
    pub closed spec fn title(&self) -> Seq<char> {
        self.title@
    }

    /// The article's summary.
    pub closed spec fn summary(&self) -> Seq<char> {
        self.summary@
    }

    /// Sets the property `name` to `value`.
    pub fn set_property(&mut self, name: &str, value: String)
        requires
            is_article_property(name@),
        ensures
            name@ == "title"@ ==> final(self).title() == value@ && final(self).summary() == old(self).summary(),
            name@ == "summary"@ ==> final(self).summary() == value@ && final(self).title() == old(self).title(),
    {
        proof {
            reveal_strlit("title");
            reveal_strlit("summary");
            assert("title"@.len() != "summary"@.len());
        }
        if String::from_str(name) == String::from_str("title") {
            self.title = value;
        } else {
            self.summary = value;
        }
    }

    /// The value of the property `name`.
    pub fn property(&self, name: &str) -> (v: String)
        requires
            is_article_property(name@),
        ensures
            v@ == (if name@ == "title"@ { self.title() } else { self.summary() }),
    {
        if String::from_str(name) == String::from_str("title") {
            self.title.clone()
        } else {
            self.summary.clone()
        }
    }
}

impl Default for ArticleItemTemplate {
    /// An article with an empty title and summary.
    fn default() -> (a: Self)
        ensures
            a.title() == Seq::<char>::empty(),
            a.summary() == Seq::<char>::empty(),
    {
        ArticleItemTemplate { title: String::new(), summary: String::new() }
    }
}

/// The state of a feed: its name and URL, read and written as the object properties
/// "name" and "url".
pub struct FeedItemTemplate {
    name: String,
    url: String,
}

/// Whether a feed has a property of this name.
pub open spec fn is_feed_property(name: Seq<char>) -> bool {
    name == "name"@ || name == "url"@
}

impl FeedItemTemplate {
    /// The feed's name.
    pub closed spec fn name(&self) -> Seq<char> {
        self.name@
    }

    /// The feed's URL.
    pub closed spec fn url(&self) -> Seq<char> {
        self.url@
    }

    /// Sets the property `name` to `value`.
    pub fn set_property(&mut self, name: &str, value: String)
        requires
            is_feed_property(name@),
        ensures
            name@ == "name"@ ==> final(self).name() == value@ && final(self).url() == old(self).url(),
            name@ == "url"@ ==> final(self).url() == value@ && final(self).name() == old(self).name(),
    {
        proof {
            reveal_strlit("name");
            reveal_strlit("url");
            assert("name"@.len() != "url"@.len());
        }
        if String::from_str(name) == String::from_str("name") {
            self.name = value;
        } else {
            self.url = value;
        }
    }

    /// The value of the property `name`.
    pub fn property(&self, name: &str) -> (v: String)
        requires
            is_feed_property(name@),
        ensures
            v@ == (if name@ == "name"@ { self.name() } else { self.url() }),
    {
        if String::from_str(name) == String::from_str("name") {
            self.name.clone()
        } else {
            self.url.clone()
        }
    }
}

impl Default for FeedItemTemplate {
    /// A feed with an empty name and URL.
    fn default() -> (f: Self)
        ensures
            f.name() == Seq::<char>::empty(),
            f.url() == Seq::<char>::empty(),
    {
        FeedItemTemplate { name: String::new(), url: String::new() }
    }
}

/// The add-contact dialog: its content lives in its layout description.
pub struct ContactDialogTemplate {}

/// The ring dialog: its content lives in its layout description.
pub struct RingDialogTemplate {}

} // verus!
