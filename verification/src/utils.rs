//! Formatting of durations as groups of sixty, joined by colons.

use vstd::prelude::*;
use crate::text::{decimal, div_rem_sixty, nat_digits, push_decimal, trunc_div, trunc_rem};

verus! {

/// Which groups are written without a leading zero.
#[derive(Clone, Copy, Debug, PartialEq, Eq, Structural)]
pub enum Padding {
    /// Groups above ten stand bare; ten itself is written `010`.
    /// This is the rule of the total duration.
    AboveTen,
    /// Groups of ten and more stand bare.
    /// This is the rule of the elapsed time.
    FromTen,
}

/// Whether the group `v` is written without a leading zero under `rule`.
pub open spec fn stands_bare(v: int, rule: Padding) -> bool {
    match rule {
        Padding::AboveTen => v > 10,
        Padding::FromTen => v >= 10,
    }
}

/// The text of one group: its decimal numeral, after a `0` unless it stands
/// bare.
pub open spec fn group_text(v: int, rule: Padding) -> Seq<char> {
    if stands_bare(v, rule) {
        decimal(v)
    } else {
        seq!['0'] + decimal(v)
    }
}

/// The number of groups of a duration: how often it can be divided by sixty
/// before nothing is left. Zero for a duration that is not positive.
pub open spec fn group_count(time: int) -> nat
    decreases time,
{
    if time <= 0 {
        0
    } else {
        1 + group_count(time / 60)
    }
}

/// The first `count` groups of `value`, the seconds first: each is the
/// remainder by sixty of what the groups before it left.
pub open spec fn groups(value: int, count: nat) -> Seq<int>
    decreases count,
{
    if count == 0 {
        Seq::empty()
    } else {
        seq![trunc_rem(value, 60)] + groups(trunc_div(value, 60), (count - 1) as nat)
    }
}

/// The groups `gs`, given seconds first, written from the last to the first
/// with a colon between neighbours.
pub open spec fn joined(gs: Seq<int>, rule: Padding) -> Seq<char>
    decreases gs.len(),
{
    if gs.len() == 0 {
        Seq::empty()
    } else if gs.len() == 1 {
        group_text(gs[0], rule)
    } else {
        joined(gs.skip(1), rule) + seq![':'] + group_text(gs[0], rule)
    }
}

/// The text of `value` in `count` groups.
pub open spec fn groups_text(value: int, count: nat, rule: Padding) -> Seq<char> {
    joined(groups(value, count), rule)
}

/// The number that the groups `gs`, given seconds first, are the digits of
/// in base sixty.
pub open spec fn value_of(gs: Seq<int>) -> int
    decreases gs.len(),
{
    if gs.len() == 0 {
        0
    } else {
        gs[0] + 60 * value_of(gs.skip(1))
    }
}

/// `groups` gives as many groups as it is asked for.
pub proof fn lemma_groups_len(value: int, count: nat)
    ensures
        groups(value, count).len() == count,
    decreases count,
{
    if count > 0 {
        lemma_groups_len(trunc_div(value, 60), (count - 1) as nat);
    }
}

/// The groups of a duration are its digits in base sixty: each lies between
/// zero and fifty-nine, the last is not zero, and together they are worth
/// the duration.
pub proof fn lemma_groups_are_digits(time: int)
    requires
        time >= 0,
    ensures
        groups(time, group_count(time)).len() == group_count(time),
        forall|i: int|
            0 <= i < group_count(time) ==> 0 <= #[trigger] groups(time, group_count(time))[i] < 60,
        time > 0 ==> groups(time, group_count(time)).last() > 0,
        value_of(groups(time, group_count(time))) == time,
    decreases time,
{
    let gs = groups(time, group_count(time));
    lemma_groups_len(time, group_count(time));
    if time > 0 {
        let rest = groups(time / 60, group_count(time / 60));
        lemma_groups_are_digits(time / 60);
        assert(gs =~= seq![time % 60] + rest);
        assert(gs.skip(1) =~= rest);
        assert forall|i: int| 0 <= i < group_count(time) implies 0 <= #[trigger] gs[i] < 60 by {
            if i > 0 {
                assert(gs[i] == rest[i - 1]);
            }
        }
        if time >= 60 {
            assert(gs.last() == rest.last());
        }
    }
}

/// A duration below sixty to the power `steps` has at most `steps` groups.
pub proof fn lemma_group_count_bound(time: int, steps: nat)
    requires
        time < pow60(steps),
    ensures
        group_count(time) <= steps,
    decreases steps,
{
    if time > 0 {
        if steps == 0 {
        } else {
            assert(time / 60 < pow60((steps - 1) as nat)) by (nonlinear_arith)
                requires
                    time < 60 * pow60((steps - 1) as nat),
            ;
            lemma_group_count_bound(time / 60, (steps - 1) as nat);
        }
    }
}

/// Sixty to the power `n`.
pub open spec fn pow60(n: nat) -> int
    decreases n,
{
    if n == 0 {
        1
    } else {
        60 * pow60((n - 1) as nat)
    }
}

/// A group between zero and fifty-nine is written in two characters, but
/// for ten under the rule `Padding::AboveTen`, which takes three.
pub proof fn lemma_group_width(v: int, rule: Padding)
    requires
        0 <= v < 60,
    ensures
        group_text(v, rule).len() == if v == 10 && rule == Padding::AboveTen {
            3int
        } else {
            2int
        },
{
    reveal_with_fuel(nat_digits, 3);
}

/// The two rules differ on the group ten alone.
pub proof fn lemma_rules_differ_on_ten(v: int)
    ensures
        v != 10 ==> group_text(v, Padding::AboveTen) == group_text(v, Padding::FromTen),
        group_text(10, Padding::AboveTen) == seq!['0'] + group_text(10, Padding::FromTen),
{
}

/// A duration has no group exactly when it is not positive, and its text is
/// then empty.
pub proof fn lemma_no_groups(time: int)
    ensures
        group_count(time) == 0 <==> time <= 0,
        time <= 0 ==> groups_text(time, group_count(time), Padding::AboveTen) == Seq::<char>::empty(),
{
}

fn push_group(out: &mut String, v: i64, rule: Padding)
    ensures
        final(out)@ == old(out)@ + group_text(v as int, rule),
{
    let bare = match rule {
        Padding::AboveTen => v > 10,
        Padding::FromTen => v >= 10,
    };
    if !bare {
        out.push('0');
    }
    push_decimal(out, v);
}

/// Writes `value` in `count` groups of sixty: the remainders by sixty, the
/// most significant first, joined by colons, each padded as `rule` says.
pub fn fmt_groups(value: i64, count: usize, rule: Padding) -> (text: String)
    ensures
        text@ == groups_text(value as int, count as nat, rule),
{
    let mut rems: Vec<i64> = Vec::new();
    let mut rest: i64 = value;
    let mut i: usize = 0;
    while i < count
        invariant
            i <= count,
            rems@.len() == i,
            groups(value as int, count as nat) =~= rems@.map_values(|r: i64| r as int) + groups(
                rest as int,
                (count - i) as nat,
            ),
        decreases count - i,
    {
        let (q, r) = div_rem_sixty(rest);
        rems.push(r);
        rest = q;
        i = i + 1;
    }
    let ghost gs = groups(value as int, count as nat);
    assert(gs =~= rems@.map_values(|r: i64| r as int));
    let mut out = String::new();
    let mut k: usize = count;
    while k > 0
        invariant
            k <= count,
            rems@.len() == count,
            gs == rems@.map_values(|r: i64| r as int),
            out@ == joined(gs.skip(k as int), rule),
        decreases k,
    {
        proof {
            assert(gs.skip(k - 1).skip(1) =~= gs.skip(k as int));
            assert(gs.skip(k - 1)[0] == rems@[k - 1] as int);
            assert(gs.skip(k - 1).len() == count - k + 1);
            assert(gs.skip(k as int).len() == count - k);
        }
        if k < count {
            out.push(':');
        }
        k = k - 1;
        push_group(&mut out, rems[k], rule);
    }
    assert(gs.skip(0) =~= gs);
    out
}

/// The number of groups of a duration, as `group_count` defines it.
pub fn count_groups(time: i64) -> (count: usize)
    ensures
        count == group_count(time as int),
        count <= 11,
{
    let mut rest: i64 = time;
    let mut count: usize = 0;
    proof {
        reveal_with_fuel(pow60, 12);
        assert(pow60(11) > i64::MAX);
        lemma_group_count_bound(time as int, 11);
    }
    while rest > 0
        invariant
            count + group_count(rest as int) == group_count(time as int),
            group_count(time as int) <= 11,
        decreases rest,
    {
        rest = rest / 60;
        count = count + 1;
    }
    count
}

/// Formats a total duration in seconds: the number of groups and the text.
/// A duration of zero, or below, has no group and an empty text; otherwise
/// the duration is divided by sixty until nothing is left, and each
/// remainder is one group, padded by the rule `Padding::AboveTen`.
pub fn fmt_time(time: i64) -> (r: (usize, String))
    ensures
        r.0 == group_count(time as int),
        r.1@ == groups_text(time as int, group_count(time as int), Padding::AboveTen),
        time <= 0 ==> r.0 == 0 && r.1@ == Seq::<char>::empty(),
{
    let count = count_groups(time);
    (count, fmt_groups(time, count, Padding::AboveTen))
}

} // verus!
