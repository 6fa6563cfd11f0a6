//! Stable ordering of holidays by date.
use vstd::prelude::*;

use crate::public_holiday::{HolidayView, PublicHoliday};

verus! {

pub open spec fn views(s: Seq<PublicHoliday>) -> Seq<HolidayView> {
    s.map_values(|h: PublicHoliday| h@)
}

pub open spec fn all_dates_valid(s: Seq<PublicHoliday>) -> bool {
    forall|i: int| 0 <= i < s.len() ==> (#[trigger] s[i]).date.wf()
}

pub open spec fn sorted_by_day(s: Seq<HolidayView>) -> bool {
    forall|i: int, j: int| 0 <= i < j < s.len() ==> s[i].day <= s[j].day
}

/// Inserts `x` after the trailing entries that fall later than it.
pub open spec fn insert_by_day(s: Seq<HolidayView>, x: HolidayView) -> Seq<HolidayView>
    decreases s.len(),
{
    if s.len() == 0 {
        seq![x]
    } else if s.last().day <= x.day {
        s.push(x)
    } else {
        insert_by_day(s.drop_last(), x).push(s.last())
    }
}

/// Insertion sort by day: entries of one day keep their order.
pub open spec fn sort_by_day(s: Seq<HolidayView>) -> Seq<HolidayView>
    decreases s.len(),
{
    if s.len() == 0 {
        s
    } else {
        insert_by_day(sort_by_day(s.drop_last()), s.last())
    }
}

/// `insert_by_day` puts `x` at the position that a scan from the end finds.
proof fn lemma_insert_at(s: Seq<HolidayView>, x: HolidayView, p: int)
    requires
        0 <= p <= s.len(),
        p == 0 || s[p - 1].day <= x.day,
        forall|j: int| p <= j < s.len() ==> s[j].day > x.day,
    ensures
        insert_by_day(s, x) == s.take(p).push(x) + s.skip(p),
    decreases s.len(),
{
    if s.len() == p {
        assert(s.take(p).push(x) + s.skip(p) =~= s.push(x));
    } else {
        lemma_insert_at(s.drop_last(), x, p);
        assert(s.drop_last().take(p).push(x) + s.drop_last().skip(p) + seq![s.last()]
            =~= s.take(p).push(x) + s.skip(p));
    }
}

proof fn lemma_insert_sorted(s: Seq<HolidayView>, x: HolidayView)
    requires
        sorted_by_day(s),
    ensures
        sorted_by_day(insert_by_day(s, x)),
        insert_by_day(s, x).len() == s.len() + 1,
    decreases s.len(),
{
    if s.len() > 0 && s.last().day > x.day {
        lemma_insert_sorted(s.drop_last(), x);
        let t = insert_by_day(s.drop_last(), x);
        assert forall|i: int| 0 <= i < t.len() implies t[i].day <= s.last().day by {
            lemma_insert_members(s.drop_last(), x, i);
        }
    }
}

/// Every entry of `insert_by_day(s, x)` is `x` or an entry of `s`.
proof fn lemma_insert_members(s: Seq<HolidayView>, x: HolidayView, i: int)
    requires
        0 <= i < insert_by_day(s, x).len(),
        insert_by_day(s, x).len() == s.len() + 1,
    ensures
        insert_by_day(s, x)[i] == x || exists|j: int| 0 <= j < s.len() && s[j] == insert_by_day(s, x)[i],
    decreases s.len(),
{
    if s.len() > 0 && s.last().day > x.day {
        let t = insert_by_day(s.drop_last(), x);
        if i < t.len() {
            lemma_insert_len(s.drop_last(), x);
            lemma_insert_members(s.drop_last(), x, i);
            if t[i] != x {
                let j = choose|j: int| 0 <= j < s.drop_last().len() && s.drop_last()[j] == t[i];
                assert(s[j] == t[i]);
            }
        } else {
            assert(s[s.len() - 1] == insert_by_day(s, x)[i]);
        }
    } else if s.len() > 0 {
        if i < s.len() {
            assert(s[i] == insert_by_day(s, x)[i]);
        }
    }
}

proof fn lemma_insert_len(s: Seq<HolidayView>, x: HolidayView)
    ensures
        insert_by_day(s, x).len() == s.len() + 1,
    decreases s.len(),
{
    if s.len() > 0 && s.last().day > x.day {
        lemma_insert_len(s.drop_last(), x);
    }
}

/// The insertion sort yields entries in ascending order of day, as many as it was given.
pub proof fn lemma_sort_sorted(s: Seq<HolidayView>)
    ensures
        sorted_by_day(sort_by_day(s)),
        sort_by_day(s).len() == s.len(),
    decreases s.len(),
{
    if s.len() > 0 {
        lemma_sort_sorted(s.drop_last());
        lemma_insert_sorted(sort_by_day(s.drop_last()), s.last());
    }
}

/// `insert_by_day` adds `x` and keeps every other entry.
proof fn lemma_insert_permutes(s: Seq<HolidayView>, x: HolidayView)
    ensures
        insert_by_day(s, x).to_multiset() == s.to_multiset().insert(x),
    decreases s.len(),
{
    broadcast use vstd::seq_lib::group_to_multiset_ensures;

    if s.len() > 0 {
        assert(s =~= s.drop_last().push(s.last()));
        if s.last().day > x.day {
            lemma_insert_permutes(s.drop_last(), x);
            assert(s.drop_last().to_multiset().insert(x).insert(s.last())
                =~= s.drop_last().to_multiset().insert(s.last()).insert(x));
        }
    } else {
        assert(seq![x] =~= Seq::<HolidayView>::empty().push(x));
    }
}

/// Sorting keeps every entry, each as many times as it was given.
pub proof fn lemma_sort_permutes(s: Seq<HolidayView>)
    ensures
        sort_by_day(s).to_multiset() == s.to_multiset(),
    decreases s.len(),
{
    broadcast use vstd::seq_lib::group_to_multiset_ensures;

    if s.len() > 0 {
        lemma_sort_permutes(s.drop_last());
        lemma_insert_permutes(sort_by_day(s.drop_last()), s.last());
        assert(s =~= s.drop_last().push(s.last()));
    }
}

/// Appends `h` to a list of holidays.
pub(crate) fn push_holiday(holidays: &mut Vec<PublicHoliday>, h: PublicHoliday)
    requires
        all_dates_valid(old(holidays)@),
        h.date.wf(),
    ensures
        views(final(holidays)@) == views(old(holidays)@).push(h@),
        all_dates_valid(final(holidays)@),
{
    let ghost before = holidays@;
    holidays.push(h);
    assert(views(holidays@) =~= views(before).push(h@));
}

/// Stable sort of holidays by ascending date.
pub fn sort_by_date(holidays: Vec<PublicHoliday>) -> (r: Vec<PublicHoliday>)
    requires
        all_dates_valid(holidays@),
    ensures
        views(r@) == sort_by_day(views(holidays@)),
        all_dates_valid(r@),
{
    let ghost orig = holidays@;
    let mut rest = holidays;
    let mut result: Vec<PublicHoliday> = Vec::new();
    let n = rest.len();
    let mut k: usize = 0;
    assert(views(orig.take(0)) =~= Seq::<HolidayView>::empty());
    while k < n
        invariant
            n == orig.len(),
            k <= n,
            rest@ == orig.skip(k as int),
            all_dates_valid(orig),
            all_dates_valid(result@),
            views(result@) == sort_by_day(views(orig.take(k as int))),
        decreases n - k,
    {
        assert(rest@[0] == orig[k as int]);
        let x = rest.remove(0);
        assert(rest@ =~= orig.skip(k + 1));
        let mut pos = result.len();
        while pos > 0 && result[pos - 1].date.is_after(&x.date)
            invariant
                pos <= result.len(),
                all_dates_valid(result@),
                x.date.wf(),
                forall|j: int| pos <= j < result.len() ==> result@[j]@.day > x@.day,
            decreases pos,
        {
            pos = pos - 1;
        }
        let ghost before = views(result@);
        proof {
            lemma_insert_at(before, x@, pos as int);
            let prefix = views(orig.take(k + 1));
            assert(prefix.drop_last() =~= views(orig.take(k as int)));
            assert(prefix.last() == x@);
        }
        result.insert(pos, x);
        assert(views(result@) =~= before.take(pos as int).push(x@) + before.skip(pos as int));
        k = k + 1;
    }
    assert(orig.take(n as int) =~= orig);
    result
}

} // verus!
