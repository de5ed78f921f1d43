//! Summaries of publishable items, and a notification line built from them.

use vstd::prelude::*;
use vstd::string::StringExecFns;

verus! {

/// Behaviour of items that can describe themselves in one line.
pub trait Summary {
    /// What the summary of this item says.
    spec fn summary(&self) -> Seq<char>;

    /// Returns the item's one-line summary.
    fn summarize(&self) -> (r: String)
        ensures
            r@ == self.summary(),
    ;
}

/// A news article with a headline, a byline and a body.
pub struct NewsArticle {
    pub headline: String,
    pub location: String,
    pub author: String,
    pub content: String,
}

impl Summary for NewsArticle {
    /// An article's summary is `"<headline>, by <author> (<location>)"`.
    open spec fn summary(&self) -> Seq<char> {
        self.headline@ + ", by "@ + self.author@ + " ("@ + self.location@ + ")"@
    }

    fn summarize(&self) -> (r: String) {
        let mut r = self.headline.clone();
        r.append(", by ");
        r.append(self.author.as_str());
        r.append(" (");
        r.append(self.location.as_str());
        r.append(")");
        proof {
            assert(r@ =~= self.summary());
        }
        r
    }
}

/// A tweet: a short message posted by a user.
pub struct Tweet {
    pub username: String,
    pub content: String,
    pub reply: bool,
    pub retweet: bool,
}

impl Summary for Tweet {
    /// A tweet's summary is `"<username>: <content>"`.
    open spec fn summary(&self) -> Seq<char> {
        self.username@ + ": "@ + self.content@
    }

    fn summarize(&self) -> (r: String) {
        let mut r = self.username.clone();
        r.append(": ");
        r.append(self.content.as_str());
        proof {
            assert(r@ =~= self.summary());
        }
        r
    }
}

/// Returns the breaking-news line announcing `item`, built from its summary.
pub fn notify<T: Summary>(item: &T) -> (line: String)
    ensures
        line@ == "Breaking new! "@ + item.summary(),
{
    let mut line = "Breaking new! ".to_owned();
    let s = item.summarize();
    line.append(s.as_str());
    line
}

} // verus!
