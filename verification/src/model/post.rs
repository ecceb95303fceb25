//! Posts: the row as the datastore holds it, and what a page is given
//! of it.

use crate::data::post::PostDBView;
use crate::data::post::PostView;
use crate::time::at_view;
use crate::time::show_text;
use crate::time::show_time;
use crate::time::text_view;
use crate::time::Timestamp;
use vstd::prelude::*;
use vstd::std_specs::convert::FromSpecImpl;

verus! {

/// A row of the table of posts. A column without a value is `None`.
#[derive(Debug)]
pub struct Post {
    pub id: i64,
    pub title: Option<String>,
    pub body: Option<String>,
    pub created_at: Option<Timestamp>,
    pub updated_at: Option<Timestamp>,
}

/// What a page is given of a post: every column is a text.
#[derive(Debug)]
pub struct PostTemplateData {
    pub id: i64,
    pub title: String,
    pub body: String,
    pub created_at: String,
    pub updated_at: String,
}

impl View for Post {
    type V = PostDBView;

    open spec fn view(&self) -> PostDBView {
        PostDBView {
            id: self.id,
            title: text_view(self.title),
            body: text_view(self.body),
            created_at: at_view(self.created_at),
            updated_at: at_view(self.updated_at),
        }
    }
}

impl View for PostTemplateData {
    type V = PostView;

    open spec fn view(&self) -> PostView {
        PostView {
            id: self.id,
            title: self.title@,
            body: self.body@,
            created_at: self.created_at@,
            updated_at: self.updated_at@,
        }
    }
}

impl From<&Post> for PostTemplateData {
    fn from(post: &Post) -> (r: Self)
        ensures
            r@ == post@.shown(),
    {
        PostTemplateData {
            id: post.id,
            title: show_text(&post.title),
            body: show_text(&post.body),
            created_at: show_time(&post.created_at),
            updated_at: show_time(&post.updated_at),
        }
    }
}

/// The conversion is stated over views, in the `ensures` of `from`: a
/// text has no value in specifications but its view.
impl FromSpecImpl<&Post> for PostTemplateData {
    open spec fn obeys_from_spec() -> bool {
        false
    }

    open spec fn from_spec(post: &Post) -> PostTemplateData {
        arbitrary()
    }
}

impl From<Post> for PostTemplateData {
    fn from(post: Post) -> (r: Self)
        ensures
            r@ == post@.shown(),
    {
        PostTemplateData::from(&post)
    }
}

/// The conversion is stated over views, in the `ensures` of `from`.
impl FromSpecImpl<Post> for PostTemplateData {
    open spec fn obeys_from_spec() -> bool {
        false
    }

    open spec fn from_spec(post: Post) -> PostTemplateData {
        arbitrary()
    }
}

/// The rows as a page is given them, in their order.
pub fn template_data(posts: &Vec<Post>) -> (r: Vec<PostTemplateData>)
    ensures
        r.len() == posts.len(),
        forall|i: int| 0 <= i < posts.len() ==> (#[trigger] r[i])@ == posts[i]@.shown(),
{
    let mut shown: Vec<PostTemplateData> = Vec::new();
    let mut i: usize = 0;
    while i < posts.len()
        invariant
            i <= posts.len(),
            shown.len() == i,
            forall|j: int| 0 <= j < i ==> (#[trigger] shown[j])@ == posts[j]@.shown(),
        decreases posts.len() - i,
    {
        shown.push(PostTemplateData::from(&posts[i]));
        i += 1;
    }
    shown
}

} // verus!
