//! Blog posts: the post as the application handles it, the row the posts
//! table stores for it, and the conversions between the two.

use vstd::prelude::*;

use crate::date::{default_to_today, parse_ymd, ymd_parse, Date};
use crate::ids::{new_v4, uuid_variant, uuid_version};
use crate::tags::{concat_all, split_commas, split_tags, views};

verus! {

/// A row of the posts table. Its tags are one text column.
#[derive(Debug)]
pub struct RawPost {
    pub uuid: u128,
    pub draft: bool,
    pub title: String,
    pub date: Date,
    pub updated: Date,
    pub slug: String,
    pub tags: String,
    pub content: Option<String>,
}

/// A blog post: title, publication date, URL slug, content, and its tags as a list.
#[derive(Debug)]
pub struct Post {
    pub uuid: u128,
    pub draft: bool,
    pub title: String,
    pub date: Date,
    pub updated: Date,
    pub slug: String,
    pub tags: Vec<String>,
    pub content: Option<String>,
}

/// The value a row stands for.
pub struct RawPostView {
    pub uuid: u128,
    pub draft: bool,
    pub title: Seq<char>,
    pub date: Date,
    pub updated: Date,
    pub slug: Seq<char>,
    pub tags: Seq<char>,
    pub content: Option<Seq<char>>,
}

/// The value a post stands for.
pub struct PostView {
    pub uuid: u128,
    pub draft: bool,
    pub title: Seq<char>,
    pub date: Date,
    pub updated: Date,
    pub slug: Seq<char>,
    pub tags: Seq<Seq<char>>,
    pub content: Option<Seq<char>>,
}

pub open spec fn opt_view(o: Option<String>) -> Option<Seq<char>> {
    match o {
        Some(s) => Some(s@),
        None => None,
    }
}

impl View for RawPost {
    type V = RawPostView;

    open spec fn view(&self) -> RawPostView {
        RawPostView {
            uuid: self.uuid,
            draft: self.draft,
            title: self.title@,
            date: self.date,
            updated: self.updated,
            slug: self.slug@,
            tags: self.tags@,
            content: opt_view(self.content),
        }
    }
}

impl View for Post {
    type V = PostView;

    open spec fn view(&self) -> PostView {
        PostView {
            uuid: self.uuid,
            draft: self.draft,
            title: self.title@,
            date: self.date,
            updated: self.updated,
            slug: self.slug@,
            tags: views(self.tags@),
            content: opt_view(self.content),
        }
    }
}

/// `p` holds what the row `r` stores, field by field; its tag list is the
/// tag column cut at every comma.
pub open spec fn reads_back(p: PostView, r: RawPostView) -> bool {
    &&& p.uuid == r.uuid
    &&& p.draft == r.draft
    &&& p.title == r.title
    &&& p.date == r.date
    &&& p.updated == r.updated
    &&& p.slug == r.slug
    &&& p.tags == split_commas(r.tags)
    &&& p.content == r.content
}

/// The post a row is read back as: every field as stored, the tag column cut
/// at its commas.
pub open spec fn post_from_raw(r: RawPostView) -> PostView {
    PostView {
        uuid: r.uuid,
        draft: r.draft,
        title: r.title,
        date: r.date,
        updated: r.updated,
        slug: r.slug,
        tags: split_commas(r.tags),
        content: r.content,
    }
}

/// `r` stores the post `p` under the identifier `uuid`, field by field: not a
/// draft, its tags written one after the other into one column.
pub open spec fn stores(r: RawPostView, p: PostView, uuid: u128) -> bool {
    &&& r.uuid == uuid
    &&& !r.draft
    &&& r.title == p.title
    &&& r.date == p.date
    &&& r.updated == p.updated
    &&& r.slug == p.slug
    &&& r.tags == concat_all(p.tags)
    &&& r.content == p.content
}

/// The row that writing `p` under the identifier `uuid` stores: never a
/// draft, the tags written one after the other into one column.
pub open spec fn row_for(p: PostView, uuid: u128) -> RawPostView {
    RawPostView {
        uuid: uuid,
        draft: false,
        title: p.title,
        date: p.date,
        updated: p.updated,
        slug: p.slug,
        tags: concat_all(p.tags),
        content: p.content,
    }
}

/// The draft flag held a number other than 0 or 1; `value` is that number
/// taken as an unsigned 64-bit integer.
#[derive(Debug, Clone, Copy, PartialEq, Eq, Structural)]
pub struct DraftFlagError {
    pub value: u64,
}

/// Reads the draft flag from its stored number: 0 is false, 1 is true,
/// anything else is refused.
pub fn bool_from_int(v: i64) -> (r: Result<bool, DraftFlagError>)
    ensures
        v == 0 ==> r == Ok::<bool, DraftFlagError>(false),
        v == 1 ==> r == Ok::<bool, DraftFlagError>(true),
        v != 0 && v != 1 ==> r == Err::<bool, DraftFlagError>(DraftFlagError { value: v as u64 }),
{
    if v == 0 {
        Ok(false)
    } else if v == 1 {
        Ok(true)
    } else {
        Err(DraftFlagError { value: v as u64 })
    }
}

/// A copy of an optional text.
pub fn clone_opt_string(o: &Option<String>) -> (r: Option<String>)
    ensures
        opt_view(r) == opt_view(*o),
{
    match o {
        Some(s) => Some(s.clone()),
        None => None,
    }
}

impl RawPost {
    /// A copy of the row.
    pub fn duplicate(&self) -> (r: RawPost)
        ensures
            r@ == self@,
    {
        RawPost {
            uuid: self.uuid,
            draft: self.draft,
            title: self.title.clone(),
            date: self.date,
            updated: self.updated,
            slug: self.slug.clone(),
            tags: self.tags.clone(),
            content: clone_opt_string(&self.content),
        }
    }
}

impl Post {
    /// Reads a post back from its row: the tag column is cut at every comma.
    pub fn from(raw_post: RawPost) -> (post: Post)
        ensures
            post@ == post_from_raw(raw_post@),
            reads_back(post@, raw_post@),
    {
        let tags = split_tags(raw_post.tags.as_str());
        Post {
            uuid: raw_post.uuid,
            draft: raw_post.draft,
            title: raw_post.title,
            date: raw_post.date,
            updated: raw_post.updated,
            slug: raw_post.slug,
            tags,
            content: raw_post.content,
        }
    }

    /// The row that storing this post under `uuid` writes.
    pub fn to_row(&self, uuid: u128) -> (row: RawPost)
        ensures
            row@ == row_for(self@, uuid),
            stores(row@, self@, uuid),
    {
        RawPost {
            uuid,
            draft: false,
            title: self.title.clone(),
            date: self.date,
            updated: self.updated,
            slug: self.slug.clone(),
            tags: crate::tags::join_tags(&self.tags),
            content: clone_opt_string(&self.content),
        }
    }

    /// The post made by hand from its parts: identifier `uuid`, not a draft,
    /// published on `date`, updated on `today`, no tags, content `content`.
    pub fn from_parts(
        uuid: u128,
        title: &str,
        date: Date,
        today: Date,
        slug: &str,
        content: &str,
    ) -> (post: Post)
        ensures
            post.uuid == uuid,
            post@.title == title@,
            !post.draft,
            post.date == date,
            post.updated == today,
            post@.slug == slug@,
            post@.tags == Seq::<Seq<char>>::empty(),
            post@.content == Some(content@),
    {
        let post = Post {
            uuid,
            title: String::from_str(title),
            draft: false,
            date,
            updated: today,
            slug: String::from_str(slug),
            tags: Vec::new(),
            content: Some(String::from_str(content)),
        };
        assert(views(post.tags@) =~= Seq::<Seq<char>>::empty());
        post
    }

    /// Makes a post by hand: a fresh random identifier, not a draft, the date
    /// read from `YYYY-MM-DD` text, updated today (read from the clock), no
    /// tags; the post `from_parts` makes of these. The date text must parse.
    pub fn _new(title: &str, date: &str, slug: &str, content: &str) -> (post: Post)
        requires
            ymd_parse(date@) is Some,
        ensures
            post@.title == title@,
            !post.draft,
            ymd_parse(date@) == Some((post.date.year, post.date.month, post.date.day)),
            post.date.valid(),
            post.updated.valid(),
            post@.slug == slug@,
            post@.tags == Seq::<Seq<char>>::empty(),
            post@.content == Some(content@),
            uuid_version(post.uuid) == 4,
            uuid_variant(post.uuid) == 2,
    {
        let uuid = new_v4();
        let parsed = parse_ymd(date);
        let day = match parsed {
            Ok(d) => d,
            Err(_) => {
                proof {
                    assert(false);
                }
                Date { year: 0, month: 1, day: 1 }
            },
        };
        let today = default_to_today();
        Post::from_parts(uuid, title, day, today, slug, content)
    }

    /// Makes a post by hand as `_new` does, or `None` where the date text
    /// does not parse.
    pub fn try_new(title: &str, date: &str, slug: &str, content: &str) -> (post: Option<Post>)
        ensures
            post is None <==> ymd_parse(date@) is None,
            post matches Some(p) ==> {
                &&& p@.title == title@
                &&& !p.draft
                &&& ymd_parse(date@) == Some((p.date.year, p.date.month, p.date.day))
                &&& p.date.valid()
                &&& p.updated.valid()
                &&& p@.slug == slug@
                &&& p@.tags == Seq::<Seq<char>>::empty()
                &&& p@.content == Some(content@)
                &&& uuid_version(p.uuid) == 4
                &&& uuid_variant(p.uuid) == 2
            },
    {
        match parse_ymd(date) {
            Ok(_) => Some(Post::_new(title, date, slug, content)),
            Err(_) => None,
        }
    }
}

} // verus!
