//! Posts: the row as the datastore holds it, and the post as a page
//! shows it.

use crate::time::at_view;
use crate::time::show_text;
use crate::time::show_time;
use crate::time::shown_text;
use crate::time::shown_time;
use crate::time::text_view;
use crate::time::Timestamp;
use crate::time::TimestampView;
use vstd::prelude::*;
use vstd::std_specs::convert::FromSpecImpl;

verus! {

/// A row of the table of posts. A column without a value is `None`.
#[derive(Debug)]
pub struct PostDB {
    pub id: i64,
    pub title: Option<String>,
    pub body: Option<String>,
    pub created_at: Option<Timestamp>,
    pub updated_at: Option<Timestamp>,
}

/// A row as plain values.
pub struct PostDBView {
    pub id: i64,
    pub title: Option<Seq<char>>,
    pub body: Option<Seq<char>>,
    pub created_at: Option<TimestampView>,
    pub updated_at: Option<TimestampView>,
}

/// A post as a page shows it: every column is a text.
#[derive(Debug)]
pub struct Post {
    pub id: i64,
    pub title: String,
    pub body: String,
    pub created_at: String,
    pub updated_at: String,
}

/// A shown post as plain values.
pub struct PostView {
    pub id: i64,
    pub title: Seq<char>,
    pub body: Seq<char>,
    pub created_at: Seq<char>,
    pub updated_at: Seq<char>,
}

impl View for PostDB {
    type V = PostDBView;

    open spec fn view(&self) -> PostDBView {
        PostDBView {
            id: self.id,
            title: text_view(self.title),
            body: text_view(self.body),
            created_at: at_view(self.created_at),
            updated_at: at_view(self.updated_at),
        }
    }
}

impl View for Post {
    type V = PostView;

    open spec fn view(&self) -> PostView {
        PostView {
            id: self.id,
            title: self.title@,
            body: self.body@,
            created_at: self.created_at@,
            updated_at: self.updated_at@,
        }
    }
}

impl PostDBView {
    /// The row without a value in any column, with the identifier 0.
    pub open spec fn empty() -> PostDBView {
        PostDBView { id: 0, title: None, body: None, created_at: None, updated_at: None }
    }

    /// The row as a page shows it: a column without a value is shown
    /// empty, a point in time as `YYYY-MM-DD hh:mm:ss`.
    pub open spec fn shown(self) -> PostView {
        PostView {
            id: self.id,
            title: shown_text(self.title),
            body: shown_text(self.body),
            created_at: shown_time(self.created_at),
            updated_at: shown_time(self.updated_at),
        }
    }
}

impl Default for PostDB {
    fn default() -> (r: Self)
        ensures
            r@ == PostDBView::empty(),
    {
        PostDB { id: 0, title: None, body: None, created_at: None, updated_at: None }
    }
}

impl From<&PostDB> for Post {
    fn from(post: &PostDB) -> (r: Self)
        ensures
            r@ == post@.shown(),
    {
        Post {
            id: post.id,
            title: show_text(&post.title),
            body: show_text(&post.body),
            created_at: show_time(&post.created_at),
            updated_at: show_time(&post.updated_at),
        }
    }
}

/// The conversion is stated over views, in the `ensures` of `from`: a
/// text has no value in specifications but its view.
impl FromSpecImpl<&PostDB> for Post {
    open spec fn obeys_from_spec() -> bool {
        false
    }

    open spec fn from_spec(post: &PostDB) -> Post {
        arbitrary()
    }
}

impl From<PostDB> for Post {
    fn from(post: PostDB) -> (r: Self)
        ensures
            r@ == post@.shown(),
    {
        Post::from(&post)
    }
}

/// The conversion is stated over views, in the `ensures` of `from`.
impl FromSpecImpl<PostDB> for Post {
    open spec fn obeys_from_spec() -> bool {
        false
    }

    open spec fn from_spec(post: PostDB) -> Post {
        arbitrary()
    }
}

/// The rows as a page shows them, in their order.
pub fn shown_posts(posts: &Vec<PostDB>) -> (r: Vec<Post>)
    ensures
        r.len() == posts.len(),
        forall|i: int| 0 <= i < posts.len() ==> (#[trigger] r[i])@ == posts[i]@.shown(),
{
    let mut shown: Vec<Post> = Vec::new();
    let mut i: usize = 0;
    while i < posts.len()
        invariant
            i <= posts.len(),
            shown.len() == i,
            forall|j: int| 0 <= j < i ==> (#[trigger] shown[j])@ == posts[j]@.shown(),
        decreases posts.len() - i,
    {
        shown.push(Post::from(&posts[i]));
        i += 1;
    }
    shown
}

} // verus!
