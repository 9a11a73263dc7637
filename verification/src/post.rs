//! Summaries of values, and a blog post that has one.
use vstd::prelude::*;
use vstd::string::StringExecFns;

verus! {

/// Summarizing: a one-line description of a value.
pub trait Summary {
    /// The characters that `summarize` returns.
    spec fn summary_spec(&self) -> Seq<char>;

    /// A one-line summary of the value.
    fn summarize(&self) -> (r: String)
        ensures
            r@ == self.summary_spec(),
    ;

    /// The fixed fallback summary.
    fn default_summary(&self) -> (r: String)
        ensures
            r@ == "(read more ...)"@,
    {
        "(read more ...)".to_owned()
    }
}

/// A blog post with a title, an author, and a body of text.
pub struct Post {
    pub title: String,
    pub author: String,
    pub content: String,
}

impl Summary for Post {
    /// A post is summarized by naming its title and then its text.
    open spec fn summary_spec(&self) -> Seq<char> {
        "文章是"@ + self.title@ + ", 作者是"@ + self.content@
    }

    fn summarize(&self) -> (r: String) {
        let mut r = String::from_str("文章是");
        r.append(self.title.as_str());
        r.append(", 作者是");
        r.append(self.content.as_str());
        r
    }
}

} // verus!
