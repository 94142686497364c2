//! What the reports of the downloader change about the users whose streams
//! are being recorded.

use crate::streamer::{
    streamer_views, update_views, ActionView, Streamer, StreamerAction, StreamerState,
    StreamerUpdate, StreamerView, UpdateView,
};
use vstd::prelude::*;

verus! {

/// Whether a message is about the user of that name.
pub open spec fn is_about(u: UpdateView, name: Seq<char>) -> bool {
    u.streamer.profile_name == name
}

/// The messages of one size, in order.
pub open spec fn of_size(s: Seq<UpdateView>, size: u64) -> Seq<UpdateView> {
    s.filter(|u: UpdateView| u.streamer.download_size_mb == size)
}

/// Larger downloads come first.
pub open spec fn descending(s: Seq<UpdateView>) -> bool {
    forall|i: int, j: int|
        0 <= i < j < s.len() ==> s[i].streamer.download_size_mb
            >= s[j].streamer.download_size_mb
}

/// `sorted` holds the messages of `arrived` with larger downloads first, and
/// those of one size in the order in which they arrived.
pub open spec fn stably_sorted(arrived: Seq<UpdateView>, sorted: Seq<UpdateView>) -> bool {
    &&& descending(sorted)
    &&& sorted.to_multiset() == arrived.to_multiset()
    &&& forall|size: u64| #[trigger] of_size(sorted, size) == of_size(arrived, size)
}

/// Whether report `i` is the one that counts for a user: the one with the
/// largest download, and of several such the one that arrived first.
pub open spec fn is_chosen(arrived: Seq<UpdateView>, name: Seq<char>, i: int) -> bool {
    &&& 0 <= i < arrived.len()
    &&& is_about(arrived[i], name)
    &&& forall|j: int|
        0 <= j < arrived.len() && is_about(#[trigger] arrived[j], name)
            ==> arrived[j].streamer.download_size_mb <= arrived[i].streamer.download_size_mb
    &&& forall|j: int|
        0 <= j < i && is_about(#[trigger] arrived[j], name)
            ==> arrived[j].streamer.download_size_mb < arrived[i].streamer.download_size_mb
}

/// The report that counts for a user, if there is any about the user.
pub open spec fn chosen_report(arrived: Seq<UpdateView>, name: Seq<char>) -> Option<UpdateView> {
    if exists|i: int| is_chosen(arrived, name, i) {
        Some(arrived[choose|i: int| is_chosen(arrived, name, i)])
    } else {
        None
    }
}

/// Whether a report says that a recording has stopped or how far it is.
pub open spec fn is_report(u: UpdateView) -> bool {
    u.action is Stop || u.action is Update
}

/// A user after a report: waiting again if the recording has stopped,
/// otherwise with the new size.
pub open spec fn after_report(user: StreamerView, u: UpdateView) -> StreamerView {
    if u.action is Stop {
        StreamerView { profile_status: StreamerState::Waiting, ..user }
    } else {
        StreamerView { download_size_mb: u.streamer.download_size_mb, ..user }
    }
}

/// The users about whom something was reported, as they are afterwards.
pub open spec fn reported_users(
    active: Seq<StreamerView>,
    arrived: Seq<UpdateView>,
) -> Seq<StreamerView> {
    active.filter_map(
        |user: StreamerView|
            match chosen_report(arrived, user.profile_name) {
                Some(u) => Some(after_report(user, u)),
                None => None,
            },
    )
}

/// Whether each message that counts for one of the users is a report.
pub open spec fn all_reports(active: Seq<StreamerView>, arrived: Seq<UpdateView>) -> bool {
    forall|i: int|
        0 <= i < active.len() ==> match chosen_report(
            arrived,
            (#[trigger] active[i]).profile_name,
        ) {
            Some(u) => is_report(u),
            None => true,
        }
}

/// Where the first element that satisfies a predicate stands.
proof fn lemma_filter_first(s: Seq<UpdateView>, p: spec_fn(UpdateView) -> bool) -> (i: int)
    requires
        s.filter(p).len() > 0,
    ensures
        0 <= i < s.len(),
        p(s[i]),
        forall|j: int| 0 <= j < i ==> !p(#[trigger] s[j]),
        s.filter(p)[0] == s[i],
    decreases s.len(),
{
    reveal(Seq::filter);
    let init = s.drop_last();
    if init.filter(p).len() > 0 {
        let i = lemma_filter_first(init, p);
        assert forall|j: int| 0 <= j < i implies !p(#[trigger] s[j]) by {
            assert(init[j] == s[j]);
        }
        i
    } else {
        assert forall|j: int| 0 <= j < s.len() - 1 implies !p(#[trigger] s[j]) by {
            if p(s[j]) {
                init.lemma_filter_contains(p, j);
                assert(init[j] == s[j]);
            }
        }
        s.len() - 1
    }
}

/// Filtering twice is filtering by both predicates.
proof fn lemma_filter_twice(
    s: Seq<UpdateView>,
    p: spec_fn(UpdateView) -> bool,
    q: spec_fn(UpdateView) -> bool,
)
    ensures
        s.filter(p).filter(q) == s.filter(|u: UpdateView| p(u) && q(u)),
    decreases s.len(),
{
    reveal(Seq::filter);
    if s.len() > 0 {
        lemma_filter_twice(s.drop_last(), p, q);
        if p(s.last()) {
            assert(s.filter(p).drop_last() == s.drop_last().filter(p));
        }
    }
}

/// Putting a message behind all that are at least as large, and before all
/// that are smaller, keeps the order and counts as arriving last.
proof fn lemma_insert(t: Seq<UpdateView>, x: UpdateView, p: int)
    requires
        descending(t),
        0 <= p <= t.len(),
        forall|j: int|
            0 <= j < p ==> (#[trigger] t[j]).streamer.download_size_mb
                >= x.streamer.download_size_mb,
        forall|j: int|
            p <= j < t.len() ==> (#[trigger] t[j]).streamer.download_size_mb
                < x.streamer.download_size_mb,
    ensures
        descending(t.insert(p, x)),
        t.insert(p, x).to_multiset() == t.to_multiset().insert(x),
        forall|size: u64| #[trigger] of_size(t.insert(p, x), size) == of_size(t.push(x), size),
{
    let ins = t.insert(p, x);
    assert(ins.remove(p) == t);
    assert(ins[p] == x);
    ins.to_multiset_ensures();
    assert(ins.to_multiset().count(x) > 0);
    assert(ins.to_multiset().remove(x).insert(x) =~= ins.to_multiset());
    assert forall|size: u64| #[trigger] of_size(t.insert(p, x), size) == of_size(
        t.push(x),
        size,
    ) by {
        let f = |u: UpdateView| u.streamer.download_size_mb == size;
        let a = t.take(p);
        let b = t.skip(p);
        assert(t.insert(p, x) == a + seq![x] + b);
        assert(t.push(x) == a + b + seq![x]);
        Seq::filter_distributes_over_add(a + seq![x], b, f);
        Seq::filter_distributes_over_add(a, seq![x], f);
        Seq::filter_distributes_over_add(a + b, seq![x], f);
        Seq::filter_distributes_over_add(a, b, f);
        if size == x.streamer.download_size_mb {
            b.lemma_all_neg_filter_empty(f);
            assert(b.filter(f) == Seq::<UpdateView>::empty());
        } else {
            assert(!f(seq![x][0]));
            seq![x].lemma_all_neg_filter_empty(f);
            assert(seq![x].filter(f) == Seq::<UpdateView>::empty());
        }
    }
}

/// The first message about a user in sorted order is the one that counts.
pub proof fn law_first_sorted_report_counts(
    arrived: Seq<UpdateView>,
    sorted: Seq<UpdateView>,
    name: Seq<char>,
    j: int,
)
    requires
        stably_sorted(arrived, sorted),
        0 <= j < sorted.len(),
        is_about(sorted[j], name),
        forall|i: int| 0 <= i < j ==> !is_about(#[trigger] sorted[i], name),
    ensures
        chosen_report(arrived, name) == Some(sorted[j]),
{
    let size = sorted[j].streamer.download_size_mb;
    let p = |u: UpdateView| u.streamer.download_size_mb == size;
    let q = |u: UpdateView| is_about(u, name);
    let r = |u: UpdateView| p(u) && q(u);
    lemma_filter_twice(arrived, p, q);
    lemma_filter_twice(sorted, p, q);
    assert(of_size(sorted, size) == of_size(arrived, size));
    assert(sorted.filter(r) == arrived.filter(r));
    sorted.lemma_filter_contains(r, j);
    let first = lemma_filter_first(sorted, r);
    assert(first == j);
    let i = lemma_filter_first(arrived, r);
    assert(arrived[i] == sorted[j]);
    assert forall|k: int| 0 <= k < arrived.len() && is_about(#[trigger] arrived[k], name) implies
        arrived[k].streamer.download_size_mb <= size by {
        broadcast use vstd::seq_lib::group_to_multiset_ensures;

        assert(arrived.to_multiset().contains(arrived[k]));
        assert(sorted.contains(arrived[k]));
    }
    assert(is_chosen(arrived, name, i));
    let c = choose|c: int| is_chosen(arrived, name, c);
    assert(is_chosen(arrived, name, c));
    assert(c == i);
}

/// Without a message about a user in sorted order, there is none at all.
pub proof fn law_no_sorted_report_counts(
    arrived: Seq<UpdateView>,
    sorted: Seq<UpdateView>,
    name: Seq<char>,
)
    requires
        stably_sorted(arrived, sorted),
        forall|i: int| 0 <= i < sorted.len() ==> !is_about(#[trigger] sorted[i], name),
    ensures
        chosen_report(arrived, name) is None,
{
    if exists|i: int| is_chosen(arrived, name, i) {
        broadcast use vstd::seq_lib::group_to_multiset_ensures;

        let i = choose|i: int| is_chosen(arrived, name, i);
        assert(arrived.to_multiset().contains(arrived[i]));
        assert(sorted.contains(arrived[i]));
    }
}

/// Sorts messages by falling size of the download, those of one size staying
/// in the order in which they arrived.
pub fn sort_reports(arrived: Vec<StreamerUpdate>) -> (sorted: Vec<StreamerUpdate>)
    ensures
        stably_sorted(update_views(arrived@), update_views(sorted@)),
{
    let ghost all = update_views(arrived@);
    let mut sorted: Vec<StreamerUpdate> = Vec::new();
    assert(update_views(sorted@) == all.take(0));
    for x in it: arrived
        invariant
            it.seq() == arrived@,
            all == update_views(arrived@),
            stably_sorted(all.take(it.index()), update_views(sorted@)),
    {
        let ghost i = it.index();
        let ghost before = update_views(sorted@);
        let mut p: usize = sorted.len();
        while p > 0 && sorted[p - 1].streamer.download_size_mb < x.streamer.download_size_mb
            invariant
                p <= sorted.len(),
                before == update_views(sorted@),
                forall|j: int|
                    p <= j < before.len() ==> (#[trigger] before[j]).streamer.download_size_mb
                        < x.streamer.download_size_mb,
            decreases p,
        {
            p -= 1;
        }
        proof {
            assert(p > 0 ==> before[p - 1].streamer.download_size_mb
                >= x.streamer.download_size_mb);
            lemma_insert(before, x@, p as int);
            assert(update_views(sorted@.insert(p as int, x)) == before.insert(p as int, x@));
            assert(all.take(i + 1) == all.take(i).push(x@));
            all.take(i).to_multiset_ensures();
            assert forall|size: u64| #[trigger] of_size(before.push(x@), size) == of_size(
                all.take(i + 1),
                size,
            ) by {
                reveal(Seq::filter);
                assert(of_size(before, size) == of_size(all.take(i), size));
                assert(before.push(x@).drop_last() == before);
                assert(all.take(i).push(x@).drop_last() == all.take(i));
            }
        }
        sorted.insert(p, x);
    }
    assert(all.take(all.len() as int) == all);
    sorted
}

/// Finds the first message about a user.
pub fn find_report(reports: &Vec<StreamerUpdate>, name: &String) -> (r: Option<usize>)
    ensures
        match r {
            Some(i) => {
                &&& i < reports.len()
                &&& is_about(reports@[i as int]@, name@)
                &&& forall|j: int| 0 <= j < i ==> !is_about(#[trigger] reports@[j]@, name@)
            },
            None => forall|j: int|
                0 <= j < reports.len() ==> !is_about(#[trigger] reports@[j]@, name@),
        },
{
    let mut i: usize = 0;
    while i < reports.len()
        invariant
            i <= reports.len(),
            forall|j: int| 0 <= j < i ==> !is_about(#[trigger] reports@[j]@, name@),
        decreases reports.len() - i,
    {
        if reports[i].streamer.profile_name == *name {
            return Some(i);
        }
        i += 1;
    }
    None
}

/// A user after a report.
pub fn apply_report(user: &Streamer, report: &StreamerUpdate) -> (r: Streamer)
    requires
        is_report(report@),
    ensures
        r@ == after_report(user@, report@),
{
    let mut updated = user.clone();
    match report.action {
        StreamerAction::Stop => {
            updated.profile_status = StreamerState::Waiting;
        },
        _ => {
            updated.download_size_mb = report.streamer.download_size_mb;
        },
    }
    updated
}

/// Finds the report that counts for a user.
pub fn choose_report(arrived: &Vec<StreamerUpdate>, name: &String) -> (r: Option<usize>)
    ensures
        match r {
            Some(i) => {
                &&& is_chosen(update_views(arrived@), name@, i as int)
                &&& chosen_report(update_views(arrived@), name@) == Some(arrived@[i as int]@)
            },
            None => chosen_report(update_views(arrived@), name@) is None,
        },
{
    let ghost all = update_views(arrived@);
    let mut best: Option<usize> = None;
    let mut i: usize = 0;
    while i < arrived.len()
        invariant
            i <= arrived.len(),
            all == update_views(arrived@),
            match best {
                Some(b) => b < i && is_chosen(all.take(i as int), name@, b as int),
                None => forall|j: int| 0 <= j < i ==> !is_about(#[trigger] all[j], name@),
            },
        decreases arrived.len() - i,
    {
        let ghost before = all.take(i as int);
        let ghost after = all.take(i + 1);
        assert(after == before.push(all[i as int]));
        if arrived[i].streamer.profile_name == *name {
            match best {
                Some(b) => {
                    assert(before[b as int] == all[b as int]);
                    if arrived[i].streamer.download_size_mb
                        > arrived[b].streamer.download_size_mb {
                        best = Some(i);
                    }
                },
                None => {
                    best = Some(i);
                },
            }
        }
        i += 1;
    }
    assert(all.take(all.len() as int) == all);
    proof {
        match best {
            Some(b) => {
                let c = choose|c: int| is_chosen(all, name@, c);
                assert(is_chosen(all, name@, b as int));
                assert(is_chosen(all, name@, c));
                assert(c == b);
            },
            None => {},
        }
    }
    best
}

/// Whether each message that counts for one of the users is a report.
pub fn reports_only(active: &Vec<Streamer>, arrived: &Vec<StreamerUpdate>) -> (r: bool)
    ensures
        r == all_reports(streamer_views(active@), update_views(arrived@)),
{
    let ghost users = streamer_views(active@);
    let ghost all = update_views(arrived@);
    let mut i: usize = 0;
    while i < active.len()
        invariant
            i <= active.len(),
            users == streamer_views(active@),
            all == update_views(arrived@),
            forall|j: int|
                0 <= j < i ==> match chosen_report(all, (#[trigger] users[j]).profile_name) {
                    Some(u) => is_report(u),
                    None => true,
                },
        decreases active.len() - i,
    {
        assert(users[i as int].profile_name == active@[i as int].profile_name@);
        match choose_report(arrived, &active[i].profile_name) {
            Some(c) => {
                match arrived[c].action {
                    StreamerAction::Stop | StreamerAction::Update => {},
                    _ => {
                        return false;
                    },
                }
            },
            None => {},
        }
        i += 1;
    }
    true
}

/// The users about whom something was reported, as they are afterwards.
pub fn update_users(active: &Vec<Streamer>, arrived: Vec<StreamerUpdate>) -> (r: Vec<Streamer>)
    requires
        all_reports(streamer_views(active@), update_views(arrived@)),
    ensures
        streamer_views(r@) == reported_users(streamer_views(active@), update_views(arrived@)),
{
    let ghost users = streamer_views(active@);
    let ghost all = update_views(arrived@);
    let ghost change = |user: StreamerView|
        match chosen_report(all, user.profile_name) {
            Some(u) => Some(after_report(user, u)),
            None => None,
        };
    let sorted = sort_reports(arrived);
    let mut r: Vec<Streamer> = Vec::new();
    let mut i: usize = 0;
    assert(streamer_views(r@) == users.take(0).filter_map(change));
    while i < active.len()
        invariant
            i <= active.len(),
            users == streamer_views(active@),
            all_reports(users, all),
            stably_sorted(all, update_views(sorted@)),
            change == (|user: StreamerView|
                match chosen_report(all, user.profile_name) {
                    Some(u) => Some(after_report(user, u)),
                    None => None,
                }),
            streamer_views(r@) == users.take(i as int).filter_map(change),
        decreases active.len() - i,
    {
        let ghost user = users[i as int];
        proof {
            assert(user == active@[i as int]@);
            users.lemma_filter_map_take_succ(change, i as int);
        }
        let ghost before = r@;
        match find_report(&sorted, &active[i].profile_name) {
            Some(j) => {
                proof {
                    let views = update_views(sorted@);
                    assert forall|k: int| 0 <= k < j implies !is_about(
                        #[trigger] views[k],
                        user.profile_name,
                    ) by {
                        assert(views[k] == sorted@[k]@);
                    }
                    assert(views[j as int] == sorted@[j as int]@);
                    law_first_sorted_report_counts(all, views, user.profile_name, j as int);
                }
                let updated = apply_report(&active[i], &sorted[j]);
                r.push(updated);
                assert(streamer_views(r@) == streamer_views(before) + seq![updated@]);
            },
            None => {
                proof {
                    let views = update_views(sorted@);
                    assert forall|k: int| 0 <= k < views.len() implies !is_about(
                        #[trigger] views[k],
                        user.profile_name,
                    ) by {
                        assert(views[k] == sorted@[k]@);
                    }
                    law_no_sorted_report_counts(all, views, user.profile_name);
                }
            },
        }
        i += 1;
    }
    assert(users.take(users.len() as int) == users);
    r
}

/// A report changes neither the name nor the address of a user, and sets no
/// other state than waiting.
pub proof fn law_reports_keep_identity(
    active: Seq<StreamerView>,
    arrived: Seq<UpdateView>,
    changed: StreamerView,
)
    requires
        reported_users(active, arrived).contains(changed),
    ensures
        exists|i: int|
            0 <= i < active.len() && {
                &&& (#[trigger] active[i]).profile_name == changed.profile_name
                &&& active[i].profile_url == changed.profile_url
                &&& changed.profile_status == active[i].profile_status
                    || changed.profile_status is Waiting
            },
{
    let change = |user: StreamerView|
        match chosen_report(arrived, user.profile_name) {
            Some(u) => Some(after_report(user, u)),
            None => None,
        };
    active.lemma_filter_map_contains(change, changed);
}

/// Where there is a message about a user, one of them counts.
proof fn lemma_some_report_counts(arrived: Seq<UpdateView>, name: Seq<char>, k: int)
    requires
        0 <= k < arrived.len(),
        arrived[k].streamer.profile_name == name,
    ensures
        exists|i: int| is_chosen(arrived, name, i),
    decreases arrived.len(),
{
    let init = arrived.drop_last();
    let last = arrived.len() - 1;
    if exists|j: int| 0 <= j < last && (#[trigger] arrived[j]).streamer.profile_name == name {
        let j = choose|j: int|
            0 <= j < last && (#[trigger] arrived[j]).streamer.profile_name == name;
        assert(init[j] == arrived[j]);
        lemma_some_report_counts(init, name, j);
        let i = choose|i: int| is_chosen(init, name, i);
        assert(is_chosen(init, name, i));
        assert forall|m: int| 0 <= m < last implies #[trigger] arrived[m] == init[m] by {}
        if is_about(arrived[last], name) && arrived[last].streamer.download_size_mb
            > arrived[i].streamer.download_size_mb {
            assert(is_chosen(arrived, name, last));
        } else {
            assert(is_chosen(arrived, name, i));
        }
    } else {
        assert(is_chosen(arrived, name, last));
    }
}

/// The report that counts for a user arrived, is about the user, is as large as
/// any other about the user, and larger than all of them that arrived before.
/// There is none only where nothing about the user arrived.
pub proof fn law_largest_report_counts(arrived: Seq<UpdateView>, name: Seq<char>)
    ensures
        match chosen_report(arrived, name) {
            Some(u) => exists|i: int|
                0 <= i < arrived.len() && {
                    &&& #[trigger] arrived[i] == u
                    &&& u.streamer.profile_name == name
                    &&& forall|j: int|
                        0 <= j < arrived.len() && (#[trigger] arrived[j]).streamer.profile_name
                            == name ==> {
                            &&& arrived[j].streamer.download_size_mb
                                <= u.streamer.download_size_mb
                            &&& j < i ==> arrived[j].streamer.download_size_mb
                                < u.streamer.download_size_mb
                        }
                },
            None => forall|j: int|
                0 <= j < arrived.len() ==> (#[trigger] arrived[j]).streamer.profile_name != name,
        },
{
    if exists|i: int| is_chosen(arrived, name, i) {
        let i = choose|i: int| is_chosen(arrived, name, i);
        assert(is_chosen(arrived, name, i));
        assert(chosen_report(arrived, name) == Some(arrived[i]));
    } else {
        assert forall|j: int| 0 <= j < arrived.len() implies (
        #[trigger] arrived[j]).streamer.profile_name != name by {
            if arrived[j].streamer.profile_name == name {
                lemma_some_report_counts(arrived, name, j);
            }
        }
    }
}

/// A report that a recording has stopped sets the user to waiting, and nothing
/// else. Any other one takes over the size, and nothing else.
pub proof fn law_report_changes_one_thing(user: StreamerView, u: UpdateView)
    ensures
        ({
            let after = after_report(user, u);
            &&& after.profile_name == user.profile_name
            &&& after.profile_url == user.profile_url
            &&& u.action is Stop ==> after.profile_status is Waiting && after.download_size_mb
                == user.download_size_mb
            &&& !(u.action is Stop) ==> after.profile_status == user.profile_status
                && after.download_size_mb == u.streamer.download_size_mb
        }),
{
}

/// Updates and stops are reports, and no other message is.
pub proof fn law_kinds_of_reports(u: UpdateView)
    ensures
        is_report(u) <==> match u.action {
            ActionView::Heartbeat => false,
            ActionView::Start(_) => false,
            ActionView::Stop => true,
            ActionView::StopAll => false,
            ActionView::Update => true,
        },
{
}

/// Users are gone through one by one, in their order: what is reported about two
/// lists is what is reported about the first followed by what is reported about
/// the second, and one user is there once if a message about the user arrived,
/// and else not at all.
pub proof fn law_reports_user_by_user(
    a: Seq<StreamerView>,
    b: Seq<StreamerView>,
    user: StreamerView,
    arrived: Seq<UpdateView>,
)
    ensures
        reported_users(a + b, arrived) == reported_users(a, arrived) + reported_users(b, arrived),
        reported_users(Seq::empty(), arrived) == Seq::<StreamerView>::empty(),
        match chosen_report(arrived, user.profile_name) {
            Some(u) => reported_users(seq![user], arrived) == seq![after_report(user, u)],
            None => reported_users(seq![user], arrived) == Seq::<StreamerView>::empty(),
        },
    decreases b.len(),
{
    let change = |user: StreamerView|
        match chosen_report(arrived, user.profile_name) {
            Some(u) => Some(after_report(user, u)),
            None => None,
        };
    Seq::<StreamerView>::lemma_filter_map_singleton(user, change);
    law_largest_report_counts(arrived, user.profile_name);
    assert(reported_users(Seq::empty(), arrived) == Seq::<StreamerView>::empty()) by {
        reveal(Seq::filter_map);
    }
    if b.len() == 0 {
        assert(a + b == a);
    } else {
        let last = b.len() - 1;
        law_reports_user_by_user(a, b.drop_last(), user, arrived);
        let all = a + b;
        all.lemma_filter_map_take_succ(change, all.len() - 1);
        b.lemma_filter_map_take_succ(change, last);
        assert(all.take(all.len() as int) == all);
        assert(b.take(last + 1) == b);
        assert(all.take(all.len() - 1) == a + b.drop_last());
        assert(b.take(last) == b.drop_last());
        assert(all[all.len() - 1] == b[last]);
    }
}

/// Whether something about a user arrived.
pub open spec fn has_news(arrived: Seq<UpdateView>, name: Seq<char>) -> bool {
    exists|j: int|
        0 <= j < arrived.len() && (#[trigger] arrived[j]).streamer.profile_name == name
}

/// There are as many reported users as there are active ones about whom something
/// arrived: without any message there is none, and nobody is there twice for
/// having been reported twice.
pub proof fn law_only_users_with_news_are_reported(
    active: Seq<StreamerView>,
    arrived: Seq<UpdateView>,
)
    ensures
        reported_users(active, arrived).len() == active.filter(
            |user: StreamerView| has_news(arrived, user.profile_name),
        ).len(),
        arrived.len() == 0 ==> reported_users(active, arrived).len() == 0,
        forall|k: int|
            0 <= k < reported_users(active, arrived).len() ==> {
                let posted = #[trigger] reported_users(active, arrived)[k];
                exists|i: int, j: int|
                    0 <= i < active.len() && 0 <= j < arrived.len() && {
                        &&& (#[trigger] active[i]).profile_name == posted.profile_name
                        &&& (#[trigger] arrived[j]).streamer.profile_name == posted.profile_name
                        &&& posted.profile_url == active[i].profile_url
                        &&& arrived[j].action is Stop ==> posted.profile_status is Waiting
                            && posted.download_size_mb == active[i].download_size_mb
                        &&& !(arrived[j].action is Stop) ==> posted.profile_status
                            == active[i].profile_status && posted.download_size_mb
                            == arrived[j].streamer.download_size_mb
                    }
            },
    decreases active.len(),
{
    let news = |user: StreamerView| has_news(arrived, user.profile_name);
    if active.len() == 0 {
        law_reports_user_by_user(active, active, StreamerView::nobody(), arrived);
        reveal(Seq::filter);
        assert(active == Seq::<StreamerView>::empty());
    } else {
        let init = active.drop_last();
        let user = active.last();
        assert(init + seq![user] == active);
        law_only_users_with_news_are_reported(init, arrived);
        law_reports_user_by_user(init, seq![user], user, arrived);
        law_largest_report_counts(arrived, user.profile_name);
        reveal(Seq::filter);
        let before = reported_users(init, arrived);
        let all = reported_users(active, arrived);
        match chosen_report(arrived, user.profile_name) {
            Some(u) => {
                let j = choose|j: int| 0 <= j < arrived.len() && #[trigger] arrived[j] == u;
                assert(arrived[j].streamer.profile_name == user.profile_name);
                assert(has_news(arrived, user.profile_name));
                assert(all == before.push(after_report(user, u)));
            },
            None => {
                assert(!has_news(arrived, user.profile_name));
                assert(all == before);
            },
        }
        assert forall|k: int| 0 <= k < all.len() implies {
            let posted = #[trigger] all[k];
            exists|i: int, j: int|
                0 <= i < active.len() && 0 <= j < arrived.len() && {
                    &&& (#[trigger] active[i]).profile_name == posted.profile_name
                    &&& (#[trigger] arrived[j]).streamer.profile_name == posted.profile_name
                    &&& posted.profile_url == active[i].profile_url
                    &&& arrived[j].action is Stop ==> posted.profile_status is Waiting
                        && posted.download_size_mb == active[i].download_size_mb
                    &&& !(arrived[j].action is Stop) ==> posted.profile_status
                        == active[i].profile_status && posted.download_size_mb
                        == arrived[j].streamer.download_size_mb
                }
        } by {
            if k < before.len() {
                assert(all[k] == before[k]);
                let posted = before[k];
                let (i, j) = choose|i: int, j: int|
                    0 <= i < init.len() && 0 <= j < arrived.len() && {
                        &&& (#[trigger] init[i]).profile_name == posted.profile_name
                        &&& (#[trigger] arrived[j]).streamer.profile_name == posted.profile_name
                        &&& posted.profile_url == init[i].profile_url
                        &&& arrived[j].action is Stop ==> posted.profile_status is Waiting
                            && posted.download_size_mb == init[i].download_size_mb
                        &&& !(arrived[j].action is Stop) ==> posted.profile_status
                            == init[i].profile_status && posted.download_size_mb
                            == arrived[j].streamer.download_size_mb
                    };
                assert(active[i] == init[i]);
                assert(arrived[j].streamer.profile_name == posted.profile_name);
            } else {
                let u = chosen_report(arrived, user.profile_name)->0;
                let j = choose|j: int| 0 <= j < arrived.len() && #[trigger] arrived[j] == u;
                assert(active[active.len() - 1] == user);
                assert(arrived[j].streamer.profile_name == user.profile_name);
            }
        }
    }
}

/// Sorted messages are the ones that arrived, larger downloads first, and those of
/// any one size are in the order in which they arrived.
pub proof fn law_sorted_messages(arrived: Seq<UpdateView>, sorted: Seq<UpdateView>, size: u64)
    requires
        stably_sorted(arrived, sorted),
    ensures
        sorted.len() == arrived.len(),
        sorted.to_multiset() == arrived.to_multiset(),
        forall|i: int, j: int|
            0 <= i < j < sorted.len() ==> (#[trigger] sorted[i]).streamer.download_size_mb >= (
            #[trigger] sorted[j]).streamer.download_size_mb,
        sorted.filter(|u: UpdateView| u.streamer.download_size_mb == size) == arrived.filter(
            |u: UpdateView| u.streamer.download_size_mb == size,
        ),
{
    sorted.to_multiset_ensures();
    arrived.to_multiset_ensures();
    assert(of_size(sorted, size) == of_size(arrived, size));
}

/// Messages can be applied to users exactly when none that counts for one of them
/// is a heartbeat, a start or a stop of everything.
pub proof fn law_applicable_messages(active: Seq<StreamerView>, arrived: Seq<UpdateView>)
    ensures
        all_reports(active, arrived) <==> forall|i: int, u: UpdateView|
            0 <= i < active.len() && #[trigger] chosen_report(
                arrived,
                active[i].profile_name,
            ) == Some(u) ==> (#[trigger] u.action) is Stop || u.action is Update,
{
    if all_reports(active, arrived) {
        assert forall|i: int, u: UpdateView|
            0 <= i < active.len() && #[trigger] chosen_report(
                arrived,
                active[i].profile_name,
            ) == Some(u) implies (#[trigger] u.action) is Stop || u.action is Update by {
            assert(is_report(u));
        }
    } else {
        let i = choose|i: int|
            0 <= i < active.len() && !(match chosen_report(
                arrived,
                (#[trigger] active[i]).profile_name,
            ) {
                Some(u) => is_report(u),
                None => true,
            });
        let u = chosen_report(arrived, active[i].profile_name)->0;
        assert(!(u.action is Stop || u.action is Update));
    }
}

} // verus!
