//! A summary interface with a default method, and a news article that
//! implements it.

use vstd::prelude::*;
use vstd::string::*;

verus! {

/// Something that can present itself in brief.
pub trait Summary {
    /// A one-line summary.
    fn summarize(&self) -> String;

    /// Who to credit.
    fn shoutout(&self) -> String;

    /// A stock advertisement built around the credit line.
    fn advertise(&self) -> String {
        let mut r = String::from_str("Read more from ");
        let who = self.shoutout();
        r.append(who.as_str());
        r
    }
}

/// A news article with headline, author and body.
pub struct NewsArticle {
    pub headline: String,
    pub author: String,
    pub content: String,
}

/// Accepts anything that is both summarizable and printable.
pub fn multiple1(_item: impl Summary + core::fmt::Display) {
}

/// The same bound, written with an explicit type parameter.
pub fn multiple2<T: Summary + core::fmt::Display>(_item: T) {
}

/// Several bounds gathered in a `where` clause.
pub fn many_traits<T, U>(_first: T, _second: U) where
    T: core::fmt::Display + Clone,
    U: Clone + core::fmt::Debug,
{
}

impl Summary for NewsArticle {
    /// Headline, then author.
    fn summarize(&self) -> String {
        let mut r = self.headline.clone();
        r.append(" by ");
        r.append(self.author.as_str());
        r
    }

    /// The author gets the credit.
    fn shoutout(&self) -> String {
        self.author.clone()
    }
}

} // verus!
