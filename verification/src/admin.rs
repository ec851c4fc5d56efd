//! The decisions of the admin pages: which post a request names, what is
//! written to the posts table, and which failure a request is answered with.
//! Reading the request, talking to the database, rendering templates and
//! sending the response are left to the server.

use vstd::prelude::*;

use crate::ids::{parse_uuid_str, uuid_parse, uuid_variant, uuid_version};
use crate::model::{row_for, Post, RawPost};
use crate::table::{fetch_one, has_uuid, keep_where, other_uuid, uuid_unused, PostTable};

verus! {

/// How a failed admin request is answered.
#[derive(Debug, Clone, Copy, PartialEq, Eq, Structural)]
pub enum Failure {
    /// 500 Internal Server Error.
    InternalServerError,
    /// 404 Not Found.
    NotFound,
}

/// Edits an existing post: `path_uuid` names it, `new_post` replaces it (it
/// is deleted, and `new_post` inserted under a fresh identifier). A text that
/// is no UUID, or a UUID no post has, is answered with 500. On success gives
/// the deleted identifier and the inserted row.
pub fn edit_post(path_uuid: &str, new_post: Post, table: &mut PostTable) -> (r: Result<
    (u128, RawPost),
    Failure,
>)
    ensures
        uuid_parse(path_uuid@) is None ==> {
            &&& r == Err::<(u128, RawPost), Failure>(Failure::InternalServerError)
            &&& final(table)@ == old(table)@
        },
        uuid_parse(path_uuid@) matches Some(u) ==> match fetch_one(old(table)@, has_uuid(u)) {
            Err(_) => {
                &&& r == Err::<(u128, RawPost), Failure>(Failure::InternalServerError)
                &&& final(table)@ == old(table)@
            },
            Ok(old_post) => {
                &&& r matches Ok((deleted, row))
                &&& deleted == old_post.uuid
                &&& deleted == u
                &&& row@ == row_for(new_post@, row.uuid)
                &&& uuid_version(row.uuid) == 4
                &&& uuid_variant(row.uuid) == 2
                &&& final(table)@ == keep_where(old(table)@, other_uuid(u)).push(row@)
                &&& uuid_unused(keep_where(old(table)@, other_uuid(u)), row.uuid)
            },
        },
{
    let parsed = match parse_uuid_str(path_uuid) {
        Ok(u) => Some(u),
        Err(_) => None,
    };
    edit_post_with_uuid(parsed, new_post, table)
}

/// Edits the post that `parsed` (the identifier read from the request path,
/// `None` where it was no UUID) names, as `edit_post` does.
pub fn edit_post_with_uuid(parsed: Option<u128>, new_post: Post, table: &mut PostTable) -> (r:
    Result<(u128, RawPost), Failure>)
    ensures
        parsed is None ==> {
            &&& r == Err::<(u128, RawPost), Failure>(Failure::InternalServerError)
            &&& final(table)@ == old(table)@
        },
        parsed matches Some(u) ==> match fetch_one(old(table)@, has_uuid(u)) {
            Err(_) => {
                &&& r == Err::<(u128, RawPost), Failure>(Failure::InternalServerError)
                &&& final(table)@ == old(table)@
            },
            Ok(old_post) => {
                &&& r matches Ok((deleted, row))
                &&& deleted == old_post.uuid
                &&& deleted == u
                &&& row@ == row_for(new_post@, row.uuid)
                &&& uuid_version(row.uuid) == 4
                &&& uuid_variant(row.uuid) == 2
                &&& final(table)@ == keep_where(old(table)@, other_uuid(u)).push(row@)
                &&& uuid_unused(keep_where(old(table)@, other_uuid(u)), row.uuid)
            },
        },
{
    let og_uuid = match parsed {
        Some(u) => u,
        None => {
            return Err(Failure::InternalServerError);
        },
    };
    let old_post = match Post::get_with_uuid(og_uuid, table) {
        Ok(p) => p,
        Err(_) => {
            return Err(Failure::InternalServerError);
        },
    };
    proof {
        crate::table::lemma_fetched_has_key(old(table)@, og_uuid);
    }
    let deleted = old_post.uuid;
    let row = Post::update(old_post, new_post, table);
    Ok((deleted, row))
}

/// Deletes the post with identifier `uuid`. A UUID no post has is answered
/// with 500. On success gives the deleted identifier.
pub fn delete_post(uuid: u128, table: &mut PostTable) -> (r: Result<u128, Failure>)
    ensures
        match fetch_one(old(table)@, has_uuid(uuid)) {
            Err(_) => {
                &&& r == Err::<u128, Failure>(Failure::InternalServerError)
                &&& final(table)@ == old(table)@
            },
            Ok(_) => {
                &&& r == Ok::<u128, Failure>(uuid)
                &&& final(table)@ == keep_where(old(table)@, other_uuid(uuid))
            },
        },
{
    let old_post = match Post::get_with_uuid(uuid, table) {
        Ok(p) => p,
        Err(_) => {
            return Err(Failure::InternalServerError);
        },
    };
    proof {
        crate::table::lemma_fetched_has_key(old(table)@, uuid);
    }
    let deleted = Post::delete(old_post, table);
    Ok(deleted)
}

/// The post whose edit form is shown: `path_uuid` names it. A text that is
/// no UUID is answered with 500, a UUID no post has with 404.
pub fn edit_page(path_uuid: &str, table: &PostTable) -> (r: Result<Post, Failure>)
    ensures
        uuid_parse(path_uuid@) is None ==> r == Err::<Post, Failure>(Failure::InternalServerError),
        uuid_parse(path_uuid@) matches Some(u) ==> match fetch_one(table@, has_uuid(u)) {
            Err(_) => r == Err::<Post, Failure>(Failure::NotFound),
            Ok(p) => r matches Ok(post) && post@ == p,
        },
{
    let parsed = match parse_uuid_str(path_uuid) {
        Ok(u) => Some(u),
        Err(_) => None,
    };
    edit_page_with_uuid(parsed, table)
}

/// The post whose edit form is shown, named by `parsed` (the identifier read
/// from the request path, `None` where it was no UUID), as `edit_page` says.
pub fn edit_page_with_uuid(parsed: Option<u128>, table: &PostTable) -> (r: Result<Post, Failure>)
    ensures
        parsed is None ==> r == Err::<Post, Failure>(Failure::InternalServerError),
        parsed matches Some(u) ==> match fetch_one(table@, has_uuid(u)) {
            Err(_) => r == Err::<Post, Failure>(Failure::NotFound),
            Ok(p) => r matches Ok(post) && post@ == p,
        },
{
    let uuid = match parsed {
        Some(u) => u,
        None => {
            return Err(Failure::InternalServerError);
        },
    };
    match Post::get_with_uuid(uuid, table) {
        Ok(post) => Ok(post),
        Err(_) => Err(Failure::NotFound),
    }
}

} // verus!
