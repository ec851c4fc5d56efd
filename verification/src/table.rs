//! The posts table, and the queries the blog runs on it: list every post,
//! insert one, delete one by identifier, fetch one by identifier or by date
//! and slug, and update one (delete, then insert).
//!
//! A `PostTable` holds the table's rows in the order the database hands
//! them out. Each query states what it reads or how it changes the rows.

use vstd::prelude::*;
use vstd::set_lib::set_int_range;

use crate::date::Date;
use crate::ids::{lemma_spare_uuid, new_v4, spare, spare_index, spare_uuid, uuid_variant, uuid_version};
use crate::model::{post_from_raw, reads_back, row_for, Post, PostView, RawPost, RawPostView};

verus! {

/// A query that fetches one row found none.
#[derive(Debug, Clone, Copy, PartialEq, Eq, Structural)]
pub enum DbError {
    RowNotFound,
}

/// The rows of the posts table, in order.
pub struct PostTable {
    rows: Vec<RawPost>,
}

pub open spec fn row_views(rows: Seq<RawPost>) -> Seq<RawPostView> {
    rows.map_values(|r: RawPost| r@)
}

impl View for PostTable {
    type V = Seq<RawPostView>;

    closed spec fn view(&self) -> Seq<RawPostView> {
        row_views(self.rows@)
    }
}

/// The first row, in table order, that `pred` holds of.
pub open spec fn first_where(rows: Seq<RawPostView>, pred: spec_fn(RawPostView) -> bool) -> Option<
    RawPostView,
>
    decreases rows.len(),
{
    if rows.len() == 0 {
        None
    } else {
        match first_where(rows.drop_last(), pred) {
            Some(r) => Some(r),
            None => if pred(rows.last()) {
                Some(rows.last())
            } else {
                None
            },
        }
    }
}

/// The rows that `pred` holds of, in table order.
pub open spec fn keep_where(rows: Seq<RawPostView>, pred: spec_fn(RawPostView) -> bool) -> Seq<
    RawPostView,
>
    decreases rows.len(),
{
    if rows.len() == 0 {
        Seq::<RawPostView>::empty()
    } else {
        let init = keep_where(rows.drop_last(), pred);
        if pred(rows.last()) {
            init.push(rows.last())
        } else {
            init
        }
    }
}

/// No row carries the identifier `uuid`.
pub open spec fn uuid_unused(rows: Seq<RawPostView>, uuid: u128) -> bool {
    forall|i: int| 0 <= i < rows.len() ==> #[trigger] rows[i].uuid != uuid
}

/// Rows whose identifier is `uuid`.
pub open spec fn has_uuid(uuid: u128) -> spec_fn(RawPostView) -> bool {
    |r: RawPostView| r.uuid == uuid
}

/// Rows whose identifier is not `uuid`.
pub open spec fn other_uuid(uuid: u128) -> spec_fn(RawPostView) -> bool {
    |r: RawPostView| r.uuid != uuid
}

/// Rows published on `date` under the slug `slug`.
pub open spec fn has_dateslug(date: Date, slug: Seq<char>) -> spec_fn(RawPostView) -> bool {
    |r: RawPostView| r.date == date && r.slug == slug
}

/// What fetching one post with `pred` gives: the first such row read back as
/// a post, or `RowNotFound`.
pub open spec fn fetch_one(rows: Seq<RawPostView>, pred: spec_fn(RawPostView) -> bool) -> Result<
    PostView,
    DbError,
> {
    match first_where(rows, pred) {
        Some(r) => Ok(post_from_raw(r)),
        None => Err(DbError::RowNotFound),
    }
}

pub open spec fn fetched_view(r: Result<Post, DbError>) -> Result<PostView, DbError> {
    match r {
        Ok(p) => Ok(p@),
        Err(e) => Err(e),
    }
}

/// What `first_where` finds: a row `pred` holds of, with no such row before
/// it; and it finds one whenever there is one.
pub proof fn lemma_first_where_found(rows: Seq<RawPostView>, pred: spec_fn(RawPostView) -> bool)
    ensures
        first_where(rows, pred) matches Some(r) ==> pred(r) && exists|i: int|
            0 <= i < rows.len() && rows[i] == r && forall|j: int| 0 <= j < i ==> !pred(#[trigger] rows[j]),
        (exists|i: int| 0 <= i < rows.len() && #[trigger] pred(rows[i])) ==> first_where(rows, pred) is Some,
    decreases rows.len(),
{
    if rows.len() > 0 {
        let init = rows.drop_last();
        lemma_first_where_found(init, pred);
        match first_where(init, pred) {
            Some(r) => {
                let i = choose|i: int|
                    0 <= i < init.len() && init[i] == r && forall|j: int| 0 <= j < i ==> !pred(#[trigger] init[j]);
                assert(rows[i] == r);
                assert forall|j: int| 0 <= j < i implies !pred(#[trigger] rows[j]) by {
                    assert(rows[j] == init[j]);
                }
            },
            None => {
                if pred(rows.last()) {
                    let i = rows.len() - 1;
                    assert(rows[i] == rows.last());
                    assert forall|j: int| 0 <= j < i implies !pred(#[trigger] rows[j]) by {
                        assert(rows[j] == init[j]);
                        if pred(init[j]) {
                            assert(exists|k: int| 0 <= k < init.len() && #[trigger] pred(init[k]));
                        }
                    }
                } else {
                    assert forall|i: int| 0 <= i < rows.len() implies !#[trigger] pred(rows[i]) by {
                        if i < init.len() {
                            assert(rows[i] == init[i]);
                            if pred(init[i]) {
                                assert(exists|k: int| 0 <= k < init.len() && #[trigger] pred(init[k]));
                            }
                        }
                    }
                }
            },
        }
    }
}

/// Fetching by identifier finds a post exactly when some row carries that
/// identifier, and then gives the first such row read back, which carries it.
pub proof fn law_fetch_by_uuid(rows: Seq<RawPostView>, uuid: u128)
    ensures
        fetch_one(rows, has_uuid(uuid)) is Ok <==> exists|i: int|
            0 <= i < rows.len() && #[trigger] rows[i].uuid == uuid,
        fetch_one(rows, has_uuid(uuid)) matches Ok(p) ==> {
            &&& p.uuid == uuid
            &&& exists|i: int|
                0 <= i < rows.len() && reads_back(p, #[trigger] rows[i]) && forall|j: int|
                    0 <= j < i ==> #[trigger] rows[j].uuid != uuid
        },
{
    let pred = has_uuid(uuid);
    lemma_first_where_found(rows, pred);
    if exists|i: int| 0 <= i < rows.len() && #[trigger] rows[i].uuid == uuid {
        let i = choose|i: int| 0 <= i < rows.len() && #[trigger] rows[i].uuid == uuid;
        assert(pred(rows[i]));
    }
    if let Some(rw) = first_where(rows, pred) {
        let i = choose|i: int|
            0 <= i < rows.len() && rows[i] == rw && forall|j: int| 0 <= j < i ==> !pred(#[trigger] rows[j]);
        assert(rows[i].uuid == uuid);
        assert forall|j: int| 0 <= j < i implies #[trigger] rows[j].uuid != uuid by {
            assert(!pred(rows[j]));
        }
    }
}

/// Fetching by date and slug finds a post exactly when some row has that
/// date (year, month and day) and that slug, and then gives the first such
/// row read back, which has them.
pub proof fn law_fetch_by_dateslug(rows: Seq<RawPostView>, date: Date, slug: Seq<char>)
    ensures
        fetch_one(rows, has_dateslug(date, slug)) is Ok <==> exists|i: int|
            0 <= i < rows.len() && #[trigger] rows[i].date == date && rows[i].slug == slug,
        fetch_one(rows, has_dateslug(date, slug)) matches Ok(p) ==> {
            &&& p.date == date
            &&& p.slug == slug
            &&& exists|i: int|
                0 <= i < rows.len() && reads_back(p, #[trigger] rows[i]) && forall|j: int|
                    0 <= j < i ==> !(#[trigger] rows[j].date == date && rows[j].slug == slug)
        },
{
    let pred = has_dateslug(date, slug);
    lemma_first_where_found(rows, pred);
    if exists|i: int| 0 <= i < rows.len() && #[trigger] rows[i].date == date && rows[i].slug == slug {
        let i = choose|i: int|
            0 <= i < rows.len() && #[trigger] rows[i].date == date && rows[i].slug == slug;
        assert(pred(rows[i]));
    }
    if let Some(rw) = first_where(rows, pred) {
        let i = choose|i: int|
            0 <= i < rows.len() && rows[i] == rw && forall|j: int| 0 <= j < i ==> !pred(#[trigger] rows[j]);
        assert(rows[i].date == date && rows[i].slug == slug);
        assert forall|j: int| 0 <= j < i implies !(#[trigger] rows[j].date == date && rows[j].slug
            == slug) by {
            assert(!pred(rows[j]));
        }
    }
}

/// A match in a prefix is the first match of the whole.
pub proof fn lemma_first_where_prefix(
    rows: Seq<RawPostView>,
    k: int,
    pred: spec_fn(RawPostView) -> bool,
)
    requires
        0 <= k <= rows.len(),
        first_where(rows.take(k), pred) is Some,
    ensures
        first_where(rows, pred) == first_where(rows.take(k), pred),
    decreases rows.len(),
{
    if k == rows.len() {
        assert(rows.take(k) =~= rows);
    } else {
        assert(rows.drop_last().take(k) =~= rows.take(k));
        lemma_first_where_prefix(rows.drop_last(), k, pred);
    }
}

/// Extending the scanned prefix by one row.
pub proof fn lemma_first_where_step(rows: Seq<RawPostView>, i: int, pred: spec_fn(RawPostView) -> bool)
    requires
        0 <= i < rows.len(),
    ensures
        first_where(rows.take(i + 1), pred) == match first_where(rows.take(i), pred) {
            Some(r) => Some(r),
            None => if pred(rows[i]) {
                Some(rows[i])
            } else {
                None
            },
        },
{
    assert(rows.take(i + 1).drop_last() =~= rows.take(i));
}

/// A post fetched by identifier carries that identifier.
pub proof fn lemma_fetched_has_key(rows: Seq<RawPostView>, uuid: u128)
    ensures
        fetch_one(rows, has_uuid(uuid)) matches Ok(p) ==> p.uuid == uuid,
    decreases rows.len(),
{
    if rows.len() > 0 {
        lemma_fetched_has_key(rows.drop_last(), uuid);
    }
}

impl PostTable {
    /// A table with no rows.
    pub fn new() -> (t: PostTable)
        ensures
            t@ == Seq::<RawPostView>::empty(),
    {
        let t = PostTable { rows: Vec::new() };
        assert(t@ =~= Seq::<RawPostView>::empty());
        t
    }

    /// The table holding `rows`, in that order.
    pub fn from_rows(rows: Vec<RawPost>) -> (t: PostTable)
        ensures
            t@ == row_views(rows@),
    {
        PostTable { rows }
    }

    /// The number of rows.
    pub fn len(&self) -> (n: usize)
        ensures
            n == self@.len(),
    {
        self.rows.len()
    }

    /// The row at `i`.
    pub fn row(&self, i: usize) -> (r: &RawPost)
        requires
            i < self@.len(),
        ensures
            r@ == self@[i as int],
    {
        &self.rows[i]
    }

    fn push(&mut self, row: RawPost)
        ensures
            final(self)@ == old(self)@.push(row@),
    {
        self.rows.push(row);
        assert(row_views(self.rows@) =~= row_views(old(self).rows@).push(row@));
    }

    fn remove_uuid(&mut self, uuid: u128)
        ensures
            final(self)@ == keep_where(old(self)@, other_uuid(uuid)),
    {
        let ghost before = self@;
        let mut kept: Vec<RawPost> = Vec::new();
        let n = self.rows.len();
        let mut i: usize = 0;
        assert(before.take(0) =~= Seq::<RawPostView>::empty());
        assert(row_views(kept@) =~= Seq::<RawPostView>::empty());
        while i < n
            invariant
                n == self.rows.len(),
                before == self@,
                i <= n,
                row_views(kept@) == keep_where(before.take(i as int), other_uuid(uuid)),
            decreases n - i,
        {
            assert(before.take(i as int + 1).drop_last() =~= before.take(i as int));
            assert(before[i as int] == self.rows[i as int]@);
            if self.rows[i].uuid != uuid {
                let row = self.rows[i].duplicate();
                let ghost kept_before = kept@;
                kept.push(row);
                assert(row_views(kept@) =~= row_views(kept_before).push(row@));
            }
            i = i + 1;
        }
        assert(before.take(n as int) =~= before);
        self.rows = kept;
    }

    fn uuid_unused_in(&self, uuid: u128) -> (unused: bool)
        ensures
            unused == uuid_unused(self@, uuid),
    {
        let n = self.rows.len();
        let mut i: usize = 0;
        while i < n
            invariant
                n == self@.len(),
                i <= n,
                forall|k: int| 0 <= k < i ==> #[trigger] self@[k].uuid != uuid,
            decreases n - i,
        {
            assert(self@[i as int] == self.rows[i as int]@);
            if self.rows[i].uuid == uuid {
                assert(self@[i as int].uuid == uuid);
                return false;
            }
            i = i + 1;
        }
        true
    }

    /// An identifier for a new row: a random version-4 UUID, or, where no
    /// row may carry it because one already does, the first spare version-4
    /// identifier no row carries.
    fn fresh_uuid(&self) -> (uuid: u128)
        ensures
            uuid_unused(self@, uuid),
            uuid_version(uuid) == 4,
            uuid_variant(uuid) == 2,
    {
        let drawn = new_v4();
        if self.uuid_unused_in(drawn) {
            return drawn;
        }
        let n = self.rows.len();
        let mut j: u128 = 0;
        while j <= n as u128
            invariant
                n == self@.len(),
                j <= n + 1,
                forall|k: int| 0 <= k < j ==> !#[trigger] uuid_unused(self@, spare_uuid(k as u128)),
            decreases n + 1 - j,
        {
            let candidate = spare(j);
            proof {
                lemma_spare_uuid(j);
            }
            if self.uuid_unused_in(candidate) {
                return candidate;
            }
            j = j + 1;
        }
        proof {
            self.lemma_spare_unused(n as int);
        }
        drawn
    }

    /// The table's `n` rows cannot carry all of the first `n + 1` spare
    /// identifiers.
    proof fn lemma_spare_unused(&self, n: int)
        requires
            n == self@.len(),
            n <= usize::MAX,
        ensures
            exists|k: int| 0 <= k < n + 1 && #[trigger] uuid_unused(self@, spare_uuid(k as u128)),
    {
        let rows = self@;
        if forall|k: int| 0 <= k < n + 1 ==> !#[trigger] uuid_unused(rows, spare_uuid(k as u128)) {
            let idx = rows.map_values(|r: RawPostView| spare_index(r.uuid) as int);
            let used = idx.to_set();
            assert forall|k: int| #[trigger] set_int_range(0, n + 1).contains(k) implies used.contains(
                k,
            ) by {
                assert(!uuid_unused(rows, spare_uuid(k as u128)));
                let i = choose|i: int| 0 <= i < rows.len() && rows[i].uuid == spare_uuid(k as u128);
                lemma_spare_uuid(k as u128);
                assert(idx[i] == k);
                assert(idx.contains(k));
            }
            vstd::set_lib::lemma_int_range(0, n + 1);
            idx.lemma_cardinality_of_set();
            vstd::set_lib::lemma_len_subset(set_int_range(0, n + 1), used);
        }
    }

    fn first_with_uuid(&self, uuid: u128) -> (r: Result<Post, DbError>)
        ensures
            fetched_view(r) == fetch_one(self@, has_uuid(uuid)),
    {
        let n = self.rows.len();
        let mut i: usize = 0;
        while i < n
            invariant
                n == self@.len(),
                i <= n,
                first_where(self@.take(i as int), has_uuid(uuid)) is None,
            decreases n - i,
        {
            proof {
                lemma_first_where_step(self@, i as int, has_uuid(uuid));
            }
            assert(self@[i as int] == self.rows[i as int]@);
            if self.rows[i].uuid == uuid {
                proof {
                    lemma_first_where_prefix(self@, i as int + 1, has_uuid(uuid));
                }
                return Ok(Post::from(self.rows[i].duplicate()));
            }
            i = i + 1;
        }
        assert(self@.take(n as int) =~= self@);
        Err(DbError::RowNotFound)
    }

    fn first_with_dateslug(&self, date: Date, slug: &String) -> (r: Result<Post, DbError>)
        ensures
            fetched_view(r) == fetch_one(self@, has_dateslug(date, slug@)),
    {
        let n = self.rows.len();
        let mut i: usize = 0;
        while i < n
            invariant
                n == self@.len(),
                i <= n,
                first_where(self@.take(i as int), has_dateslug(date, slug@)) is None,
            decreases n - i,
        {
            proof {
                lemma_first_where_step(self@, i as int, has_dateslug(date, slug@));
            }
            assert(self@[i as int] == self.rows[i as int]@);
            if self.rows[i].date == date && self.rows[i].slug == *slug {
                proof {
                    lemma_first_where_prefix(self@, i as int + 1, has_dateslug(date, slug@));
                }
                return Ok(Post::from(self.rows[i].duplicate()));
            }
            i = i + 1;
        }
        assert(self@.take(n as int) =~= self@);
        Err(DbError::RowNotFound)
    }
}

impl Post {
    /// Every post in the table, each read back from its row, in table order.
    pub fn all(table: &PostTable) -> (posts: Vec<Post>)
        ensures
            posts@.len() == table@.len(),
            forall|i: int| 0 <= i < posts@.len() ==> #[trigger] posts@[i]@ == post_from_raw(table@[i]),
            forall|i: int| 0 <= i < posts@.len() ==> reads_back(#[trigger] posts@[i]@, table@[i]),
    {
        let mut posts: Vec<Post> = Vec::new();
        let n = table.len();
        let mut i: usize = 0;
        while i < n
            invariant
                n == table@.len(),
                i <= n,
                posts@.len() == i,
                forall|j: int| 0 <= j < i ==> #[trigger] posts@[j]@ == post_from_raw(table@[j]),
                forall|j: int| 0 <= j < i ==> reads_back(#[trigger] posts@[j]@, table@[j]),
            decreases n - i,
        {
            let row = table.row(i).duplicate();
            posts.push(Post::from(row));
            i = i + 1;
        }
        posts
    }

    /// Inserts `new_post` under a fresh random identifier, one that no row
    /// of the table carries: the row appended is `new_post` written as
    /// `row_for` says, never a draft. Returns that row, for the database to
    /// store too.
    pub fn insert(new_post: Post, table: &mut PostTable) -> (row: RawPost)
        ensures
            row@ == row_for(new_post@, row.uuid),
            uuid_unused(old(table)@, row.uuid),
            final(table)@ == old(table)@.push(row@),
            uuid_version(row.uuid) == 4,
            uuid_variant(row.uuid) == 2,
    {
        let new_uuid = table.fresh_uuid();
        let row = new_post.to_row(new_uuid);
        table.push(row.duplicate());
        row
    }

    /// Deletes every row whose identifier is `post`'s. Returns that identifier.
    pub fn delete(post: Post, table: &mut PostTable) -> (uuid: u128)
        ensures
            uuid == post.uuid,
            final(table)@ == keep_where(old(table)@, other_uuid(post.uuid)),
    {
        table.remove_uuid(post.uuid);
        post.uuid
    }

    /// The first post published on `date` under `slug`, or `RowNotFound`.
    pub fn get_with_dateslug(date: Date, slug: String, table: &PostTable) -> (r: Result<
        Post,
        DbError,
    >)
        ensures
            fetched_view(r) == fetch_one(table@, has_dateslug(date, slug@)),
            r is Ok <==> exists|i: int|
                0 <= i < table@.len() && #[trigger] table@[i].date == date && table@[i].slug == slug@,
            r matches Ok(p) ==> {
                &&& p.date == date
                &&& p@.slug == slug@
                &&& exists|i: int|
                    0 <= i < table@.len() && reads_back(p@, #[trigger] table@[i]) && forall|j: int|
                        0 <= j < i ==> !(#[trigger] table@[j].date == date && table@[j].slug == slug@)
            },
    {
        let r = table.first_with_dateslug(date, &slug);
        proof {
            law_fetch_by_dateslug(table@, date, slug@);
        }
        r
    }

    /// The first post with identifier `uuid`, or `RowNotFound`.
    pub fn get_with_uuid(uuid: u128, table: &PostTable) -> (r: Result<Post, DbError>)
        ensures
            fetched_view(r) == fetch_one(table@, has_uuid(uuid)),
            r is Ok <==> exists|i: int| 0 <= i < table@.len() && #[trigger] table@[i].uuid == uuid,
            r matches Ok(p) ==> {
                &&& p.uuid == uuid
                &&& exists|i: int|
                    0 <= i < table@.len() && reads_back(p@, #[trigger] table@[i]) && forall|j: int|
                        0 <= j < i ==> #[trigger] table@[j].uuid != uuid
            },
    {
        let r = table.first_with_uuid(uuid);
        proof {
            law_fetch_by_uuid(table@, uuid);
        }
        r
    }

    /// Replaces `old_post` by `new_post`: deletes the rows with `old_post`'s
    /// identifier, then inserts `new_post` under a fresh random identifier.
    /// Returns the inserted row.
    pub fn update(old_post: Post, new_post: Post, table: &mut PostTable) -> (row: RawPost)
        ensures
            row@ == row_for(new_post@, row.uuid),
            final(table)@ == keep_where(old(table)@, other_uuid(old_post.uuid)).push(row@),
            uuid_unused(keep_where(old(table)@, other_uuid(old_post.uuid)), row.uuid),
            uuid_version(row.uuid) == 4,
            uuid_variant(row.uuid) == 2,
    {
        Post::delete(old_post, table);
        Post::insert(new_post, table)
    }
}

} // verus!
