//! What the posts table promises across queries: a post that was written can
//! be read back, a deleted post is gone while the others stay, an updated
//! post is found under its new identifier only; and what becomes of tags on
//! the way to the table and back.

use vstd::prelude::*;

use crate::model::{post_from_raw, reads_back, row_for, stores, PostView, RawPostView};
use crate::table::{
    fetch_one, first_where, has_uuid, keep_where, other_uuid, uuid_unused, DbError,
};
use crate::tags::{concat_all, split_commas};

verus! {

pub proof fn lemma_unused_not_found(rows: Seq<RawPostView>, uuid: u128)
    requires
        uuid_unused(rows, uuid),
    ensures
        first_where(rows, has_uuid(uuid)) is None,
    decreases rows.len(),
{
    if rows.len() > 0 {
        let init = rows.drop_last();
        assert forall|i: int| 0 <= i < init.len() implies #[trigger] init[i].uuid != uuid by {
            assert(init[i] == rows[i]);
        }
        lemma_unused_not_found(init, uuid);
        assert(rows.last() == rows[rows.len() - 1]);
    }
}

pub proof fn lemma_keep_where_drops(rows: Seq<RawPostView>, uuid: u128)
    ensures
        uuid_unused(keep_where(rows, other_uuid(uuid)), uuid),
    decreases rows.len(),
{
    if rows.len() > 0 {
        lemma_keep_where_drops(rows.drop_last(), uuid);
        let init = keep_where(rows.drop_last(), other_uuid(uuid));
        let kept = keep_where(rows, other_uuid(uuid));
        assert forall|i: int| 0 <= i < kept.len() implies #[trigger] kept[i].uuid != uuid by {
            if i < init.len() {
                assert(kept[i] == init[i]);
            }
        }
    }
}

/// A post read back from the row it was written as: the same post under the
/// row's identifier, not a draft, its tags the pieces between commas of its
/// tags written one after the other.
pub proof fn law_read_back_of_written_row(p: PostView, uuid: u128)
    ensures
        post_from_raw(row_for(p, uuid)) == (PostView {
            uuid: uuid,
            draft: false,
            tags: split_commas(concat_all(p.tags)),
            ..p
        }),
{
}

/// A post inserted under an identifier no row has is what fetching that
/// identifier gives afterwards.
pub proof fn law_insert_then_get(rows: Seq<RawPostView>, p: PostView, uuid: u128)
    requires
        uuid_unused(rows, uuid),
    ensures
        fetch_one(rows.push(row_for(p, uuid)), has_uuid(uuid)) == Ok::<PostView, DbError>(
            post_from_raw(row_for(p, uuid)),
        ),
{
    lemma_unused_not_found(rows, uuid);
    assert(rows.push(row_for(p, uuid)).drop_last() =~= rows);
}

/// Listing all posts after an insert gives the earlier list with the new
/// post read back at its end.
pub proof fn law_insert_then_all(rows: Seq<RawPostView>, row: RawPostView)
    ensures
        rows.push(row).map_values(|r: RawPostView| post_from_raw(r)) == rows.map_values(
            |r: RawPostView| post_from_raw(r),
        ).push(post_from_raw(row)),
{
    assert(rows.push(row).map_values(|r: RawPostView| post_from_raw(r)) =~= rows.map_values(
        |r: RawPostView| post_from_raw(r),
    ).push(post_from_raw(row)));
}

/// After deleting the rows of an identifier, fetching it finds no row.
pub proof fn law_delete_then_get(rows: Seq<RawPostView>, uuid: u128)
    ensures
        fetch_one(keep_where(rows, other_uuid(uuid)), has_uuid(uuid)) == Err::<PostView, DbError>(
            DbError::RowNotFound,
        ),
{
    lemma_keep_where_drops(rows, uuid);
    lemma_unused_not_found(keep_where(rows, other_uuid(uuid)), uuid);
}

/// Deleting the rows of one identifier leaves what fetching any other
/// identifier gives unchanged.
pub proof fn law_delete_keeps_others(rows: Seq<RawPostView>, deleted: u128, other: u128)
    requires
        deleted != other,
    ensures
        fetch_one(keep_where(rows, other_uuid(deleted)), has_uuid(other)) == fetch_one(
            rows,
            has_uuid(other),
        ),
    decreases rows.len(),
{
    if rows.len() > 0 {
        law_delete_keeps_others(rows.drop_last(), deleted, other);
        lemma_first_keep_where(rows, deleted, other);
    }
}

proof fn lemma_first_keep_where(rows: Seq<RawPostView>, deleted: u128, other: u128)
    requires
        deleted != other,
    ensures
        first_where(keep_where(rows, other_uuid(deleted)), has_uuid(other)) == first_where(
            rows,
            has_uuid(other),
        ),
    decreases rows.len(),
{
    if rows.len() > 0 {
        let init = rows.drop_last();
        lemma_first_keep_where(init, deleted, other);
        let kept_init = keep_where(init, other_uuid(deleted));
        if rows.last().uuid != deleted {
            assert(kept_init.push(rows.last()).drop_last() =~= kept_init);
        }
    }
}

/// After an update, the new version is found under its fresh identifier and
/// nothing is found under the old one any more.
pub proof fn law_update_then_get(
    rows: Seq<RawPostView>,
    old_uuid: u128,
    new_post: PostView,
    new_uuid: u128,
)
    requires
        uuid_unused(rows, new_uuid),
        new_uuid != old_uuid,
    ensures
        ({
            let after = keep_where(rows, other_uuid(old_uuid)).push(row_for(new_post, new_uuid));
            &&& fetch_one(after, has_uuid(new_uuid)) == Ok::<PostView, DbError>(
                post_from_raw(row_for(new_post, new_uuid)),
            )
            &&& fetch_one(after, has_uuid(old_uuid)) == Err::<PostView, DbError>(
                DbError::RowNotFound,
            )
        }),
{
    let kept = keep_where(rows, other_uuid(old_uuid));
    let row = row_for(new_post, new_uuid);
    assert(kept.push(row).drop_last() =~= kept);
    lemma_keep_where_drops(rows, old_uuid);
    lemma_unused_not_found(kept, old_uuid);
    lemma_keep_where_subset(rows, old_uuid, new_uuid);
    lemma_unused_not_found(kept, new_uuid);
}

proof fn lemma_keep_where_subset(rows: Seq<RawPostView>, deleted: u128, absent: u128)
    requires
        uuid_unused(rows, absent),
    ensures
        uuid_unused(keep_where(rows, other_uuid(deleted)), absent),
    decreases rows.len(),
{
    if rows.len() > 0 {
        let init = rows.drop_last();
        assert forall|i: int| 0 <= i < init.len() implies #[trigger] init[i].uuid != absent by {
            assert(init[i] == rows[i]);
        }
        lemma_keep_where_subset(init, deleted, absent);
        let kept_init = keep_where(init, other_uuid(deleted));
        let kept = keep_where(rows, other_uuid(deleted));
        assert(rows.last() == rows[rows.len() - 1]);
        assert forall|i: int| 0 <= i < kept.len() implies #[trigger] kept[i].uuid != absent by {
            if i < kept_init.len() {
                assert(kept[i] == kept_init[i]);
            }
        }
    }
}

proof fn lemma_split_no_comma(t: Seq<char>)
    requires
        forall|i: int| 0 <= i < t.len() ==> t[i] != ',',
    ensures
        split_commas(t) == seq![t],
    decreases t.len(),
{
    if t.len() > 0 {
        lemma_split_no_comma(t.drop_last());
        assert(t.drop_last().push(t.last()) =~= t);
    } else {
        assert(t =~= Seq::<char>::empty());
    }
}

/// A single tag without commas comes back from the table as it was written.
pub proof fn law_single_tag_round_trip(t: Seq<char>)
    requires
        forall|i: int| 0 <= i < t.len() ==> t[i] != ',',
    ensures
        split_commas(concat_all(seq![t])) == seq![t],
{
    assert(seq![t].drop_last() =~= Seq::<Seq<char>>::empty());
    assert(concat_all(seq![t].drop_last()) == Seq::<char>::empty());
    assert(Seq::<char>::empty() + t =~= t);
    assert(concat_all(seq![t]) == t);
    lemma_split_no_comma(t);
}

/// A post written with no tags comes back with one empty tag.
pub proof fn law_no_tags_read_back(tags: Seq<Seq<char>>)
    requires
        tags.len() == 0,
    ensures
        split_commas(concat_all(tags)) == seq![Seq::<char>::empty()],
{
}

/// `pieces` written with a comma between each two.
pub open spec fn join_commas(pieces: Seq<Seq<char>>) -> Seq<char>
    decreases pieces.len(),
{
    if pieces.len() == 0 {
        Seq::<char>::empty()
    } else if pieces.len() == 1 {
        pieces[0]
    } else {
        join_commas(pieces.drop_last()) + seq![','] + pieces.last()
    }
}

/// Cutting a tag column at its commas loses nothing: no piece holds a comma,
/// and the pieces with commas put back between them are the column again.
pub proof fn law_split_loses_nothing(s: Seq<char>)
    ensures
        join_commas(split_commas(s)) == s,
        forall|k: int, i: int|
            0 <= k < split_commas(s).len() && 0 <= i < split_commas(s)[k].len()
                ==> #[trigger] split_commas(s)[k][i] != ',',
    decreases s.len(),
{
    if s.len() == 0 {
        assert(join_commas(split_commas(s)) == Seq::<char>::empty());
        assert(s =~= Seq::<char>::empty());
    } else {
        let init_s = s.drop_last();
        law_split_loses_nothing(init_s);
        crate::tags::lemma_split_nonempty(init_s);
        let init = split_commas(init_s);
        let c = s.last();
        if c == ',' {
            let out = init.push(Seq::<char>::empty());
            assert(out.drop_last() =~= init);
            assert(join_commas(out) == join_commas(init) + seq![','] + Seq::<char>::empty());
            assert(join_commas(out) =~= s);
            assert forall|k: int, i: int|
                0 <= k < out.len() && 0 <= i < out[k].len() implies #[trigger] out[k][i] != ',' by {
                if k < init.len() {
                    assert(out[k] == init[k]);
                }
            }
        } else {
            let last = init.len() - 1;
            let out = init.update(last, init.last().push(c));
            if init.len() == 1 {
                assert(join_commas(out) == out[0]);
                assert(join_commas(init) == init[0]);
                assert(out[0] == init[0].push(c));
                assert(init_s.push(c) =~= s);
                assert(join_commas(out) =~= s);
            } else {
                assert(out.drop_last() =~= init.drop_last());
                assert(join_commas(out) == join_commas(init.drop_last()) + seq![','] + out.last());
                assert(join_commas(init) == join_commas(init.drop_last()) + seq![','] + init.last());
                assert(out.last() == init.last().push(c));
                assert(init_s.push(c) =~= s);
                assert(join_commas(out) =~= s);
            }
            assert forall|k: int, i: int|
                0 <= k < out.len() && 0 <= i < out[k].len() implies #[trigger] out[k][i] != ',' by {
                if k < last {
                    assert(out[k] == init[k]);
                } else {
                    assert(out[k] == init[k].push(c));
                    if i < init[k].len() {
                        assert(out[k][i] == init[k][i]);
                    }
                }
            }
        }
    }
}

/// Reading a row back keeps every stored field of every row (drafts
/// included) and cuts the tag column at its commas.
pub proof fn law_read_back_keeps_fields(r: RawPostView)
    ensures
        reads_back(post_from_raw(r), r),
        post_from_raw(r).draft == r.draft,
{
}

/// The row written for a post stores it field by field under the given
/// identifier, never as a draft.
pub proof fn law_written_row_stores_post(p: PostView, uuid: u128)
    ensures
        stores(row_for(p, uuid), p, uuid),
{
}

/// Writing no tags gives an empty column.
pub proof fn law_concat_empty()
    ensures
        concat_all(Seq::<Seq<char>>::empty()) == Seq::<char>::empty(),
{
}

/// One tag is written as itself.
pub proof fn law_concat_single(t: Seq<char>)
    ensures
        concat_all(seq![t]) == t,
{
    assert(seq![t].drop_last() =~= Seq::<Seq<char>>::empty());
    assert(concat_all(seq![t].drop_last()) == Seq::<char>::empty());
    assert(Seq::<char>::empty() + t =~= t);
}

/// Two lists of tags written one after the other give the column of their
/// concatenation: every tag, in order, nothing between them.
pub proof fn law_concat_append(a: Seq<Seq<char>>, b: Seq<Seq<char>>)
    ensures
        concat_all(a + b) == concat_all(a) + concat_all(b),
    decreases b.len(),
{
    if b.len() == 0 {
        assert(a + b =~= a);
        assert(concat_all(a) + Seq::<char>::empty() =~= concat_all(a));
    } else {
        law_concat_append(a, b.drop_last());
        assert((a + b).drop_last() =~= a + b.drop_last());
        assert((a + b).last() == b.last());
        assert(concat_all(a) + concat_all(b) =~= concat_all(a) + concat_all(b.drop_last()) + b.last());
    }
}

/// The column holds as many characters as all the tags together.
pub proof fn law_concat_len(tags: Seq<Seq<char>>)
    ensures
        concat_all(tags).len() == tags.fold_left(0int, |n: int, t: Seq<char>| n + t.len()),
    decreases tags.len(),
{
    if tags.len() > 0 {
        law_concat_len(tags.drop_last());
    }
}

/// Two posts inserted one after the other, each under an identifier no row
/// had when it was inserted (as `Post::insert` promises), get different
/// identifiers; the second is what fetching its identifier gives, and
/// deleting the first leaves it so.
pub proof fn law_two_inserts(
    rows: Seq<RawPostView>,
    first: PostView,
    first_uuid: u128,
    second: PostView,
    second_uuid: u128,
)
    requires
        uuid_unused(rows, first_uuid),
        uuid_unused(rows.push(row_for(first, first_uuid)), second_uuid),
    ensures
        first_uuid != second_uuid,
        ({
            let after = rows.push(row_for(first, first_uuid)).push(row_for(second, second_uuid));
            &&& fetch_one(after, has_uuid(second_uuid)) == Ok::<PostView, DbError>(
                post_from_raw(row_for(second, second_uuid)),
            )
            &&& fetch_one(keep_where(after, other_uuid(first_uuid)), has_uuid(second_uuid)) == Ok::<
                PostView,
                DbError,
            >(post_from_raw(row_for(second, second_uuid)))
            &&& fetch_one(after, has_uuid(first_uuid)) == Ok::<PostView, DbError>(
                post_from_raw(row_for(first, first_uuid)),
            )
        }),
{
    let once = rows.push(row_for(first, first_uuid));
    assert(once[rows.len() as int].uuid == first_uuid);
    law_insert_then_get(once, second, second_uuid);
    let after = once.push(row_for(second, second_uuid));
    law_delete_keeps_others(after, first_uuid, second_uuid);
    law_insert_then_get(rows, first, first_uuid);
    assert(after.take(once.len() as int) =~= once);
    crate::table::lemma_first_where_prefix(after, once.len() as int, has_uuid(first_uuid));
}

} // verus!
