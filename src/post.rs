//! A post whose text can only grow through its own methods.
use vstd::prelude::*;
use vstd::string::StringExecFns;

verus! {

/// The text that `draft` appends.
pub const DRAFT_TEXT: &'static str = "Try write something...";

pub struct Post {
    content: String,
}

impl View for Post {
    type V = Seq<char>;

    closed spec fn view(&self) -> Seq<char> {
        self.content@
    }
}

impl Post {
    pub fn new() -> (r: Post)
        ensures
            r@ == Seq::<char>::empty(),
    {
        Post { content: String::new() }
    }

    pub fn draft(&mut self)
        ensures
            final(self)@ == old(self)@ + DRAFT_TEXT@,
    {
        self.content.append(DRAFT_TEXT);
    }

    pub fn content(&self) -> (r: &str)
        ensures
            r@ == self@,
    {
        self.content.as_str()
    }
}

} // verus!
