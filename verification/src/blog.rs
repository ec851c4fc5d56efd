//! The public blog: the single post page at `/blog/{date}/{slug}`, where the
//! date is written `YYYY-MM-DD`.

use vstd::prelude::*;

use crate::admin::Failure;
use crate::date::{parse_ymd, ymd_parse, Date};
use crate::model::Post;
use crate::table::{fetch_one, has_dateslug, PostTable};

verus! {

/// The post shown at `/blog/{date_text}/{slug}`: the first post published on
/// that date under that slug. A date text that does not parse, or a date and
/// slug no post has, is answered with 404.
pub fn blog_post(date_text: &str, slug: String, table: &PostTable) -> (r: Result<Post, Failure>)
    ensures
        ymd_parse(date_text@) is None ==> r == Err::<Post, Failure>(Failure::NotFound),
        ymd_parse(date_text@) matches Some((y, m, d)) ==> match fetch_one(
            table@,
            has_dateslug(Date { year: y, month: m, day: d }, slug@),
        ) {
            Err(_) => r == Err::<Post, Failure>(Failure::NotFound),
            Ok(p) => r matches Ok(post) && post@ == p,
        },
{
    let date = match parse_ymd(date_text) {
        Ok(d) => Some(d),
        Err(_) => None,
    };
    blog_post_on(date, slug, table)
}

/// The post shown for the date `date` (`None` where the path's date text did
/// not parse) and `slug`, as `blog_post` says.
pub fn blog_post_on(date: Option<Date>, slug: String, table: &PostTable) -> (r: Result<
    Post,
    Failure,
>)
    ensures
        date is None ==> r == Err::<Post, Failure>(Failure::NotFound),
        date matches Some(day) ==> match fetch_one(table@, has_dateslug(day, slug@)) {
            Err(_) => r == Err::<Post, Failure>(Failure::NotFound),
            Ok(p) => r matches Ok(post) && post@ == p,
        },
{
    let day = match date {
        Some(d) => d,
        None => {
            return Err(Failure::NotFound);
        },
    };
    match Post::get_with_dateslug(day, slug, table) {
        Ok(post) => Ok(post),
        Err(_) => Err(Failure::NotFound),
    }
}

} // verus!
