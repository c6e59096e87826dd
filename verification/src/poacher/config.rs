use vstd::prelude::*;

pub use crate::text::is_listed;
use crate::text::list_contains;

verus! {

/// Slugs of the meetup.com groups that are never stored.
#[derive(Debug)]
pub struct GroupsBlacklist {
    pub slugs: Vec<String>,
}

#[derive(Debug)]
pub struct MeetupPoacherBlacklist {
    pub groups: GroupsBlacklist,
}

/// The slugs of all the lists, in order.
pub open spec fn blacklisted_slugs(lists: Seq<MeetupPoacherBlacklist>) -> Seq<Seq<char>>
    decreases lists.len(),
{
    if lists.len() == 0 {
        Seq::empty()
    } else {
        blacklisted_slugs(lists.drop_last()) + lists.last().groups.slugs@.map_values(
            |s: String| s@,
        )
    }
}

/// The blacklist of groups that the meetup.com consumer applies: the group
/// slugs of every meetup.com configuration, one list after another.
pub fn groups_blacklist(lists: &Vec<MeetupPoacherBlacklist>) -> (slugs: Vec<String>)
    ensures
        slugs@.map_values(|s: String| s@) == blacklisted_slugs(lists@),
{
    let mut slugs: Vec<String> = Vec::new();
    let n = lists.len();
    for i in 0..n
        invariant
            n == lists@.len(),
            slugs@.map_values(|s: String| s@) == blacklisted_slugs(lists@.take(i as int)),
    {
        let ghost before = slugs@.map_values(|s: String| s@);
        let list = &lists[i].groups.slugs;
        let m = list.len();
        for j in 0..m
            invariant
                m == list@.len(),
                slugs@.map_values(|s: String| s@) == before + list@.take(j as int).map_values(
                    |s: String| s@,
                ),
        {
            let ghost old_slugs = slugs@;
            let slug = list[j].clone();
            assert(slug@ == list@[j as int]@);
            slugs.push(slug);
            proof {
                assert(slugs@ == old_slugs.push(slug));
                assert(slugs@.map_values(|s: String| s@) =~= old_slugs.map_values(|s: String| s@).push(slug@));
                assert(list@.take(j + 1) =~= list@.take(j as int).push(list@[j as int]));
                assert(slugs@.map_values(|s: String| s@) =~= before + list@.take(
                    j + 1,
                ).map_values(|s: String| s@));
            }
        }
        proof {
            assert(list@.take(m as int) =~= list@);
            assert(lists@.take(i + 1).drop_last() =~= lists@.take(i as int));
        }
    }
    proof {
        assert(lists@.take(n as int) =~= lists@);
    }
    slugs
}

/// Whether `slug` is on the blacklist.
pub fn is_blacklisted(list: &Vec<String>, slug: &String) -> (b: bool)
    ensures
        b == is_listed(list@, slug@),
{
    list_contains(list, slug)
}

/// `slug` is in the groups blacklist of one of the configurations.
pub open spec fn in_some_blacklist(lists: Seq<MeetupPoacherBlacklist>, slug: Seq<char>) -> bool {
    exists|i: int, j: int|
        0 <= i < lists.len() && 0 <= j < lists[i].groups.slugs@.len()
            && #[trigger] lists[i].groups.slugs@[j]@ == slug
}

proof fn lemma_blacklisted_slugs_contains(lists: Seq<MeetupPoacherBlacklist>, slug: Seq<char>)
    ensures
        blacklisted_slugs(lists).contains(slug) <==> in_some_blacklist(lists, slug),
    decreases lists.len(),
{
    if lists.len() > 0 {
        let init = lists.drop_last();
        let last = lists.last().groups.slugs@.map_values(|s: String| s@);
        lemma_blacklisted_slugs_contains(init, slug);
        let all = blacklisted_slugs(lists);
        assert(all == blacklisted_slugs(init) + last);
        if all.contains(slug) {
            let k = choose|k: int| 0 <= k < all.len() && all[k] == slug;
            if k < blacklisted_slugs(init).len() {
                assert(blacklisted_slugs(init)[k] == slug);
                assert(blacklisted_slugs(init).contains(slug));
                let (i, j) = choose|i: int, j: int|
                    0 <= i < init.len() && 0 <= j < init[i].groups.slugs@.len()
                        && #[trigger] init[i].groups.slugs@[j]@ == slug;
                assert(lists[i] == init[i]);
                assert(lists[i].groups.slugs@[j]@ == slug);
            } else {
                let j = k - blacklisted_slugs(init).len();
                assert(last[j] == slug);
                assert(lists[lists.len() - 1].groups.slugs@[j]@ == slug);
            }
        }
        if in_some_blacklist(lists, slug) {
            let (i, j) = choose|i: int, j: int|
                0 <= i < lists.len() && 0 <= j < lists[i].groups.slugs@.len()
                    && #[trigger] lists[i].groups.slugs@[j]@ == slug;
            if i < lists.len() - 1 {
                assert(init[i] == lists[i]);
                assert(init[i].groups.slugs@[j]@ == slug);
                assert(in_some_blacklist(init, slug));
                let k = choose|k: int|
                    0 <= k < blacklisted_slugs(init).len() && blacklisted_slugs(init)[k] == slug;
                assert(all[k] == slug);
            } else {
                assert(last[j] == slug);
                assert(all[blacklisted_slugs(init).len() + j] == slug);
            }
        }
    }
}

/// The merged blacklist that the consumer applies holds a slug exactly when
/// the groups blacklist of some meetup.com configuration does: groups listed
/// in any configuration are left out, and no other group is.
pub proof fn law_merged_blacklist_covers_every_configuration(
    lists: Seq<MeetupPoacherBlacklist>,
    merged: Seq<String>,
    slug: Seq<char>,
)
    requires
        merged.map_values(|s: String| s@) == blacklisted_slugs(lists),
    ensures
        is_listed(merged, slug) <==> in_some_blacklist(lists, slug),
{
    lemma_blacklisted_slugs_contains(lists, slug);
    let views = merged.map_values(|s: String| s@);
    if is_listed(merged, slug) {
        let i = choose|i: int| 0 <= i < merged.len() && #[trigger] merged[i]@ == slug;
        assert(views[i] == slug);
    }
    if views.contains(slug) {
        let k = choose|k: int| 0 <= k < views.len() && views[k] == slug;
        assert(merged[k]@ == slug);
    }
}

} // verus!
