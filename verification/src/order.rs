//! The order in which the pages list the posts.

use crate::post::{post_views, Post, PostView};
use vstd::prelude::*;

verus! {

/// `sorted` with `post` put in front of the first post that is older than it, or at the end
/// where none is.
pub open spec fn inserted_by_date(sorted: Seq<PostView>, post: PostView) -> Seq<PostView>
    decreases sorted.len(),
{
    if sorted.len() == 0 {
        seq![post]
    } else if post.date.is_later_than(sorted[0].date) {
        seq![post] + sorted
    } else {
        seq![sorted[0]] + inserted_by_date(sorted.drop_first(), post)
    }
}

/// The first `n` posts, most recent first; posts of one day in the order given.
pub open spec fn newest_first(posts: Seq<PostView>, n: int) -> Seq<PostView>
    decreases n,
{
    if n <= 0 {
        Seq::empty()
    } else {
        inserted_by_date(newest_first(posts, n - 1), posts[n - 1])
    }
}

/// The order in which every page lists the posts: most recent first, and among the posts of
/// one day the one that was found last first.
pub open spec fn display_order(found: Seq<PostView>) -> Seq<PostView> {
    newest_first(found.reverse(), found.len() as int)
}

/// No post of the list is followed by one that is more recent.
pub open spec fn is_newest_first(posts: Seq<PostView>) -> bool {
    forall|i: int, j: int|
        0 <= i < j < posts.len() ==> !(#[trigger] posts[j]).date.is_later_than(
            (#[trigger] posts[i]).date,
        )
}

/// Where `post` goes into `sorted`: the offset of the first post that is older.
proof fn lemma_insert_position(sorted: Seq<PostView>, post: PostView, at: int)
    requires
        0 <= at <= sorted.len(),
        forall|j: int| 0 <= j < at ==> !post.date.is_later_than((#[trigger] sorted[j]).date),
        at < sorted.len() ==> post.date.is_later_than(sorted[at].date),
    ensures
        inserted_by_date(sorted, post) == sorted.insert(at, post),
    decreases at,
{
    if at == 0 {
        if sorted.len() == 0 {
            assert(sorted.insert(0, post) =~= seq![post]);
        } else {
            assert(sorted.insert(0, post) =~= seq![post] + sorted);
        }
    } else {
        let rest = sorted.drop_first();
        assert forall|j: int| 0 <= j < at - 1 implies !post.date.is_later_than(
            (#[trigger] rest[j]).date,
        ) by {
            assert(rest[j] == sorted[j + 1]);
        }
        assert(at - 1 < rest.len() ==> rest[at - 1] == sorted[at]);
        lemma_insert_position(rest, post, at - 1);
        assert(!post.date.is_later_than(sorted[0].date));
        assert(sorted.insert(at, post) =~= seq![sorted[0]] + rest.insert(at - 1, post));
    }
}

/// The posts in display order: most recent first, and among the posts of one day the one that
/// was found last first.
pub fn order_posts(found: Vec<Post>) -> (ordered: Vec<Post>)
    ensures
        post_views(ordered@) == display_order(post_views(found@)),
{
    let ghost views = post_views(found@);
    let ghost source = views.reverse();
    let mut rest = found;
    assert(post_views(rest@) =~= views.take(rest@.len() as int));
    let mut ordered: Vec<Post> = Vec::new();
    assert(post_views(ordered@) =~= Seq::empty());
    let ghost total = views.len();
    while rest.len() > 0
        invariant
            rest@.len() <= total,
            source.len() == total,
            source == views.reverse(),
            post_views(rest@) == views.take(rest@.len() as int),
            post_views(ordered@) == newest_first(source, total - rest@.len()),
        decreases rest@.len(),
    {
        let ghost done = total - rest@.len();
        let ghost before = post_views(ordered@);
        let ghost rest_before = post_views(rest@);
        match rest.pop() {
            Some(post) => {
                assert(rest_before[rest_before.len() - 1] == post@);
                assert(source[done] == post@);
                assert(post_views(rest@) =~= views.take(rest@.len() as int));
                let mut at: usize = 0;
                while at < ordered.len() && !post.date.is_later_than(&ordered[at].date)
                    invariant
                        at <= ordered@.len(),
                        before == post_views(ordered@),
                        forall|j: int|
                            0 <= j < at ==> !post@.date.is_later_than((#[trigger] before[j]).date),
                    decreases ordered@.len() - at,
                {
                    assert(before[at as int] == ordered@[at as int]@);
                    at += 1;
                }
                proof {
                    if at < ordered@.len() {
                        assert(before[at as int] == ordered@[at as int]@);
                    }
                    lemma_insert_position(before, post@, at as int);
                }
                ordered.insert(at, post);
                assert(post_views(ordered@) =~= before.insert(at as int, post@));
            },
            None => {},
        }
    }
    ordered
}

/// Where `post` goes into `sorted`: the offset of the first post that is older, or the length
/// where none is.
spec fn insert_offset(sorted: Seq<PostView>, post: PostView) -> int
    decreases sorted.len(),
{
    if sorted.len() == 0 || post.date.is_later_than(sorted[0].date) {
        0
    } else {
        1 + insert_offset(sorted.drop_first(), post)
    }
}

/// Putting a post in by date puts it at its offset.
proof fn lemma_insert_offset(sorted: Seq<PostView>, post: PostView)
    ensures
        0 <= insert_offset(sorted, post) <= sorted.len(),
        forall|j: int|
            0 <= j < insert_offset(sorted, post) ==> !post.date.is_later_than(
                (#[trigger] sorted[j]).date,
            ),
        insert_offset(sorted, post) < sorted.len() ==> post.date.is_later_than(
            sorted[insert_offset(sorted, post)].date,
        ),
        inserted_by_date(sorted, post) == sorted.insert(insert_offset(sorted, post), post),
    decreases sorted.len(),
{
    if sorted.len() > 0 && !post.date.is_later_than(sorted[0].date) {
        let rest = sorted.drop_first();
        lemma_insert_offset(rest, post);
        let at = insert_offset(sorted, post);
        assert forall|j: int| 0 <= j < at implies !post.date.is_later_than(
            (#[trigger] sorted[j]).date,
        ) by {
            if j > 0 {
                assert(rest[j - 1] == sorted[j]);
            }
        }
        if at < sorted.len() {
            assert(rest[at - 1] == sorted[at]);
        }
    }
    lemma_insert_position(sorted, post, insert_offset(sorted, post));
}

/// Putting a post in by date keeps a list most recent first.
proof fn lemma_insert_keeps_order(sorted: Seq<PostView>, post: PostView)
    requires
        is_newest_first(sorted),
    ensures
        is_newest_first(inserted_by_date(sorted, post)),
{
    lemma_insert_offset(sorted, post);
    let at = insert_offset(sorted, post);
    let after = sorted.insert(at, post);
    assert forall|i: int, j: int| 0 <= i < j < after.len() implies !(
    #[trigger] after[j]).date.is_later_than((#[trigger] after[i]).date) by {
        if j < at {
            assert(after[i] == sorted[i] && after[j] == sorted[j]);
        } else if j == at {
            assert(after[i] == sorted[i]);
        } else if i == at {
            assert(after[j] == sorted[j - 1]);
            assert(sorted[at] == sorted[at]);
            if j - 1 > at {
                assert(!sorted[j - 1].date.is_later_than(sorted[at].date));
            }
        } else if i < at {
            assert(after[i] == sorted[i] && after[j] == sorted[j - 1]);
        } else {
            assert(after[i] == sorted[i - 1] && after[j] == sorted[j - 1]);
        }
    }
}

/// Every page lists the posts most recent first: in the display order no post is followed by
/// one of a later day.
pub proof fn display_order_is_newest_first(found: Seq<PostView>)
    ensures
        is_newest_first(display_order(found)),
{
    lemma_newest_first_is_ordered(found.reverse(), found.len() as int);
}

/// What `newest_first` gives is most recent first.
proof fn lemma_newest_first_is_ordered(posts: Seq<PostView>, n: int)
    ensures
        is_newest_first(newest_first(posts, n)),
    decreases n,
{
    if n > 0 {
        lemma_newest_first_is_ordered(posts, n - 1);
        lemma_insert_keeps_order(newest_first(posts, n - 1), posts[n - 1]);
    }
}

/// The display order holds the posts that were found, each as often as it was found.
pub proof fn display_order_keeps_the_posts(found: Seq<PostView>)
    ensures
        display_order(found).len() == found.len(),
        display_order(found).to_multiset() == found.to_multiset(),
{
    let source = found.reverse();
    lemma_newest_first_keeps(source, source.len() as int);
    assert(source.take(source.len() as int) =~= source);
    found.lemma_reverse_to_multiset();
}

/// What `newest_first` gives holds the posts it was given, each as often.
proof fn lemma_newest_first_keeps(posts: Seq<PostView>, n: int)
    requires
        0 <= n <= posts.len(),
    ensures
        newest_first(posts, n).len() == n,
        newest_first(posts, n).to_multiset() == posts.take(n).to_multiset(),
    decreases n,
{
    if n > 0 {
        lemma_newest_first_keeps(posts, n - 1);
        let before = newest_first(posts, n - 1);
        lemma_insert_offset(before, posts[n - 1]);
        vstd::seq_lib::to_multiset_insert(
            before,
            insert_offset(before, posts[n - 1]),
            posts[n - 1],
        );
        assert(posts.take(n) =~= posts.take(n - 1).push(posts[n - 1]));
        vstd::seq_lib::to_multiset_build(posts.take(n - 1), posts[n - 1]);
    } else {
        assert(posts.take(0) =~= Seq::<PostView>::empty());
    }
}

/// Where the posts were found oldest first, the display order is the order in which they were
/// found, turned around.
pub proof fn display_order_of_oldest_first(found: Seq<PostView>)
    requires
        forall|i: int, j: int|
            0 <= i < j < found.len() ==> !(#[trigger] found[i]).date.is_later_than(
                (#[trigger] found[j]).date,
            ),
    ensures
        display_order(found) == found.reverse(),
{
    let source = found.reverse();
    assert forall|i: int, j: int| 0 <= i < j < source.len() implies !(
    #[trigger] source[j]).date.is_later_than((#[trigger] source[i]).date) by {
        assert(source[j] == found[found.len() - 1 - j]);
        assert(source[i] == found[found.len() - 1 - i]);
    }
    lemma_ordered_stays(source, source.len() as int);
    assert(source.take(source.len() as int) =~= source);
}

/// A list that is most recent first stays as it is.
proof fn lemma_ordered_stays(posts: Seq<PostView>, n: int)
    requires
        0 <= n <= posts.len(),
        is_newest_first(posts),
    ensures
        newest_first(posts, n) == posts.take(n),
    decreases n,
{
    if n > 0 {
        lemma_ordered_stays(posts, n - 1);
        let before = posts.take(n - 1);
        assert forall|j: int| 0 <= j < n - 1 implies !posts[n - 1].date.is_later_than(
            (#[trigger] before[j]).date,
        ) by {
            assert(before[j] == posts[j]);
        }
        lemma_insert_position(before, posts[n - 1], n - 1);
        assert(before.insert(n - 1, posts[n - 1]) =~= posts.take(n));
    } else {
        assert(posts.take(0) =~= Seq::<PostView>::empty());
    }
}

/// In a list that is most recent first, the posts of one year stand together, so the index has
/// one heading for each year.
pub proof fn years_stand_together(posts: Seq<PostView>, i: int, k: int, j: int)
    requires
        is_newest_first(posts),
        0 <= i <= k <= j < posts.len(),
        posts[i].date.year == posts[j].date.year,
    ensures
        posts[k].date.year == posts[i].date.year,
{
    if i < k {
        assert(!posts[k].date.is_later_than(posts[i].date));
    }
    if k < j {
        assert(!posts[j].date.is_later_than(posts[k].date));
    }
}

} // verus!
