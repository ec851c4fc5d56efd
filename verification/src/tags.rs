//! Tag lists: a post holds its tags as a list, the posts table holds them as
//! one text column.

use vstd::prelude::*;

verus! {

/// The pieces of `s` between commas, in order, as `str::split(',')` yields
/// them: one more piece than there are commas, empty pieces included.
pub open spec fn split_commas(s: Seq<char>) -> Seq<Seq<char>>
    decreases s.len(),
{
    if s.len() == 0 {
        seq![Seq::<char>::empty()]
    } else {
        let init = split_commas(s.drop_last());
        if s.last() == ',' {
            init.push(Seq::<char>::empty())
        } else {
            init.update(init.len() - 1, init.last().push(s.last()))
        }
    }
}

/// The pieces of `tags` written one after the other, with nothing between them.
pub open spec fn concat_all(tags: Seq<Seq<char>>) -> Seq<char>
    decreases tags.len(),
{
    if tags.len() == 0 {
        Seq::<char>::empty()
    } else {
        concat_all(tags.drop_last()) + tags.last()
    }
}

/// The views of a list of strings.
pub open spec fn views(v: Seq<String>) -> Seq<Seq<char>> {
    v.map_values(|t: String| t@)
}

pub proof fn lemma_split_nonempty(s: Seq<char>)
    ensures
        split_commas(s).len() >= 1,
    decreases s.len(),
{
    if s.len() > 0 {
        lemma_split_nonempty(s.drop_last());
    }
}

/// Splits a stored tag column into the list of tags, cutting at every comma.
pub fn split_tags(s: &str) -> (tags: Vec<String>)
    ensures
        views(tags@) == split_commas(s@),
{
    let n = s.unicode_len();
    let mut done: Vec<String> = Vec::new();
    let mut start: usize = 0;
    let mut i: usize = 0;
    assert(s@.take(0) =~= Seq::<char>::empty());
    while i < n
        invariant
            n == s@.len(),
            start <= i <= n,
            views(done@).push(s@.subrange(start as int, i as int)) == split_commas(s@.take(i as int)),
        decreases n - i,
    {
        let c = s.get_char(i);
        let ghost prev = split_commas(s@.take(i as int));
        assert(s@.take(i as int + 1).drop_last() =~= s@.take(i as int));
        assert(s@.take(i as int + 1).last() == c);
        if c == ',' {
            let piece = String::from_str(s.substring_char(start, i));
            done.push(piece);
            start = i + 1;
            assert(views(done@) =~= prev);
            assert(s@.subrange(start as int, i as int + 1) =~= Seq::<char>::empty());
        } else {
            assert(s@.subrange(start as int, i as int + 1) =~= s@.subrange(start as int, i as int).push(c));
            assert(views(done@).push(s@.subrange(start as int, i as int + 1)) =~= prev.update(
                prev.len() - 1,
                prev.last().push(c),
            ));
        }
        i = i + 1;
    }
    let last = String::from_str(s.substring_char(start, n));
    done.push(last);
    assert(s@.take(n as int) =~= s@);
    assert(views(done@) =~= split_commas(s@));
    done
}

/// Writes a list of tags as one text column: the tags one after the other,
/// with no separator between them.
pub fn join_tags(tags: &Vec<String>) -> (joined: String)
    ensures
        joined@ == concat_all(views(tags@)),
{
    let mut joined = String::new();
    let mut i: usize = 0;
    assert(views(tags@).take(0) =~= Seq::<Seq<char>>::empty());
    while i < tags.len()
        invariant
            i <= tags.len(),
            joined@ == concat_all(views(tags@).take(i as int)),
        decreases tags.len() - i,
    {
        joined.append(tags[i].as_str());
        assert(views(tags@).take(i as int + 1).drop_last() =~= views(tags@).take(i as int));
        i = i + 1;
    }
    assert(views(tags@).take(tags.len() as int) =~= views(tags@));
    joined
}

} // verus!
