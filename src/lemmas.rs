//! Laws of the check, proved over the models that its functions' contracts
//! speak of.

use vstd::prelude::*;
use crate::shaping::{Checker, ShapingInput};
use crate::shaping_differs::{missing_features, pair_outputs, pair_problems, problem_for, problems_spec};

verus! {

proof fn lemma_contains_push(s: Seq<Seq<char>>, x: Seq<char>)
    ensures
        forall|y: Seq<char>| #[trigger] s.push(x).contains(y) <==> (s.contains(y) || y == x),
{
    assert forall|y: Seq<char>| #[trigger] s.push(x).contains(y) <==> (s.contains(y) || y == x) by {
        if s.push(x).contains(y) {
            let k = choose|k: int| 0 <= k < s.push(x).len() && s.push(x)[k] == y;
            if k < s.len() {
                assert(s[k] == y);
            }
        }
        if s.contains(y) {
            let k = choose|k: int| 0 <= k < s.len() && s[k] == y;
            assert(s.push(x)[k] == y);
        }
        if y == x {
            assert(s.push(x)[s.len() as int] == y);
        }
    }
}

/// The features named in a skip reason are exactly those that the pairs need
/// and the font lacks, and each is named once. In particular, where some
/// needed feature is absent the list is not empty.
pub proof fn lemma_missing_features_exact(needed: Seq<Seq<char>>, available: Seq<Seq<char>>)
    ensures
        missing_features(needed, available).no_duplicates(),
        forall|x: Seq<char>| #[trigger] missing_features(needed, available).contains(x)
            <==> (needed.contains(x) && !available.contains(x)),
        (exists|x: Seq<char>| needed.contains(x) && !available.contains(x))
            ==> missing_features(needed, available).len() > 0,
    decreases needed.len(),
{
    let missing = missing_features(needed, available);
    if needed.len() > 0 {
        let rest = needed.drop_last();
        let x = needed.last();
        let prev = missing_features(rest, available);
        lemma_missing_features_exact(rest, available);
        assert(needed =~= rest.push(x));
        lemma_contains_push(rest, x);
        lemma_contains_push(prev, x);
        if !(available.contains(x) || prev.contains(x)) {
            assert forall|i: int, j: int|
                0 <= i < missing.len() && 0 <= j < missing.len() && i != j
                implies missing[i] != missing[j] by {
                if i < prev.len() && j < prev.len() {
                    assert(prev[i] != prev[j]);
                } else if i < prev.len() {
                    assert(prev.contains(prev[i]));
                } else {
                    assert(prev.contains(prev[j]));
                }
            }
        }
    }
    if exists|x: Seq<char>| needed.contains(x) && !available.contains(x) {
        let x = choose|x: Seq<char>| needed.contains(x) && !available.contains(x);
        assert(missing.contains(x));
    }
}

/// Where the font has every feature that the pairs need, nothing is missing,
/// so no skip reason is given whatever the optional flag says.
pub proof fn lemma_nothing_missing(needed: Seq<Seq<char>>, available: Seq<Seq<char>>)
    requires
        forall|x: Seq<char>| #[trigger] needed.contains(x) ==> available.contains(x),
    ensures
        missing_features(needed, available).len() == 0,
{
    lemma_missing_features_exact(needed, available);
    let missing = missing_features(needed, available);
    if missing.len() > 0 {
        assert(missing.contains(missing[0]));
    }
}

/// A pair whose two canonical outputs are the same adds exactly one
/// diagnostic, coded "shaping-same" and with exactly one fix, right after
/// those of the pairs before it: it stands in the full list at the index
/// that counts the diagnostics of the pairs before it.
pub proof fn lemma_same_output_reported(
    pairs: Seq<(ShapingInput, ShapingInput)>,
    outputs: Seq<(Seq<char>, Seq<char>)>,
    i: int,
)
    requires
        0 <= i < pairs.len(),
        outputs.len() == pairs.len(),
        outputs[i].0 == outputs[i].1,
    ensures
        problems_spec(pairs.take(i + 1), outputs) == problems_spec(pairs.take(i), outputs).push(
            problem_for(pairs[i].0, pairs[i].1),
        ),
        problem_for(pairs[i].0, pairs[i].1).code == "shaping-same"@,
        problem_for(pairs[i].0, pairs[i].1).fixes.len() == 1,
        problems_spec(pairs, outputs)[problems_spec(pairs.take(i), outputs).len() as int]
            == problem_for(pairs[i].0, pairs[i].1),
{
    assert(pairs.take(i + 1).drop_last() =~= pairs.take(i));
    assert(problems_spec(pairs.take(i + 1), outputs) =~= problems_spec(pairs.take(i), outputs).push(
        problem_for(pairs[i].0, pairs[i].1),
    ));
    lemma_problems_in_pair_order(pairs, outputs, i + 1);
    let k = problems_spec(pairs.take(i), outputs).len() as int;
    assert(problems_spec(pairs.take(i + 1), outputs)[k] == problem_for(pairs[i].0, pairs[i].1));
}

/// A pair whose two canonical outputs differ adds no diagnostic.
pub proof fn lemma_differing_output_silent(
    pairs: Seq<(ShapingInput, ShapingInput)>,
    outputs: Seq<(Seq<char>, Seq<char>)>,
    i: int,
)
    requires
        0 <= i < pairs.len(),
        outputs.len() == pairs.len(),
        outputs[i].0 != outputs[i].1,
    ensures
        problems_spec(pairs.take(i + 1), outputs) == problems_spec(pairs.take(i), outputs),
{
    assert(pairs.take(i + 1).drop_last() =~= pairs.take(i));
    assert(problems_spec(pairs.take(i + 1), outputs) =~= problems_spec(pairs.take(i), outputs));
}

/// The diagnostics of the first `i` pairs open the diagnostics of all pairs:
/// diagnostics come in the order in which the pairs are configured.
pub proof fn lemma_problems_in_pair_order(
    pairs: Seq<(ShapingInput, ShapingInput)>,
    outputs: Seq<(Seq<char>, Seq<char>)>,
    i: int,
)
    requires
        0 <= i <= pairs.len(),
    ensures
        problems_spec(pairs.take(i), outputs).is_prefix_of(problems_spec(pairs, outputs)),
    decreases pairs.len(),
{
    if i == pairs.len() {
        assert(pairs.take(i) =~= pairs);
    } else {
        let rest = pairs.drop_last();
        lemma_problems_in_pair_order(rest, outputs, i);
        assert(rest.take(i) =~= pairs.take(i));
        let a = problems_spec(pairs.take(i), outputs);
        let b = problems_spec(rest, outputs);
        let c = problems_spec(pairs, outputs);
        assert(c == b + crate::shaping_differs::pair_problems(pairs, outputs, pairs.len() - 1));
        assert(a =~= c.subrange(0, a.len() as int));
    }
}

/// Of two pairs that both shaped the same, the earlier pair's diagnostic
/// comes first.
pub proof fn lemma_reported_in_pair_order(
    pairs: Seq<(ShapingInput, ShapingInput)>,
    outputs: Seq<(Seq<char>, Seq<char>)>,
    i: int,
    j: int,
)
    requires
        0 <= i < j < pairs.len(),
        outputs.len() == pairs.len(),
        outputs[i].0 == outputs[i].1,
        outputs[j].0 == outputs[j].1,
    ensures
        problems_spec(pairs.take(i), outputs).len() < problems_spec(pairs.take(j), outputs).len(),
{
    lemma_same_output_reported(pairs, outputs, i);
    lemma_problems_in_pair_order(pairs.take(j), outputs, i + 1);
    assert(pairs.take(j).take(i + 1) =~= pairs.take(i + 1));
}

/// The diagnostics of the pairs depend only on the outputs of those pairs.
proof fn lemma_outputs_beyond_ignored(
    pairs: Seq<(ShapingInput, ShapingInput)>,
    first: Seq<(Seq<char>, Seq<char>)>,
    second: Seq<(Seq<char>, Seq<char>)>,
)
    requires
        first.len() >= pairs.len(),
        second.len() >= pairs.len(),
        forall|i: int| 0 <= i < pairs.len() ==> first[i] == second[i],
    ensures
        problems_spec(pairs, first) == problems_spec(pairs, second),
    decreases pairs.len(),
{
    if pairs.len() > 0 {
        lemma_outputs_beyond_ignored(pairs.drop_last(), first, second);
    }
}

/// The diagnostics of two runs of pairs laid end to end are those of the
/// first run followed by those of the second.
proof fn lemma_problems_split(
    a: Seq<(ShapingInput, ShapingInput)>,
    b: Seq<(ShapingInput, ShapingInput)>,
    oa: Seq<(Seq<char>, Seq<char>)>,
    ob: Seq<(Seq<char>, Seq<char>)>,
)
    requires
        oa.len() == a.len(),
        ob.len() == b.len(),
    ensures
        problems_spec(a + b, oa + ob) == problems_spec(a, oa) + problems_spec(b, ob),
    decreases b.len(),
{
    if b.len() == 0 {
        assert(a + b =~= a);
        lemma_outputs_beyond_ignored(a, oa + ob, oa);
        assert(problems_spec(a, oa) + problems_spec(b, ob) =~= problems_spec(a, oa));
    } else {
        let b2 = b.drop_last();
        let ob2 = ob.drop_last();
        lemma_problems_split(a, b2, oa, ob2);
        assert((a + b).drop_last() =~= a + b2);
        lemma_outputs_beyond_ignored(a + b2, oa + ob, oa + ob2);
        lemma_outputs_beyond_ignored(b2, ob, ob2);
        let last = a.len() + b.len() - 1;
        assert((a + b)[last] == b[b.len() - 1]);
        assert((oa + ob)[last] == ob[ob.len() - 1]);
        assert(pair_problems(a + b, oa + ob, last) == pair_problems(b, ob, b.len() - 1));
        assert(problems_spec(a + b, oa + ob) =~= problems_spec(a, oa) + problems_spec(b, ob));
    }
}

/// Taking out a pair whose two requests shape differently on the checker
/// leaves the diagnostics of a run unchanged.
pub proof fn lemma_differing_pair_removable(
    pairs: Seq<(ShapingInput, ShapingInput)>,
    checker: &Checker,
    i: int,
)
    requires
        0 <= i < pairs.len(),
        pairs[i].0.output(checker) != pairs[i].1.output(checker),
    ensures
        problems_spec(pairs, pair_outputs(pairs, checker)) == problems_spec(
            pairs.remove(i),
            pair_outputs(pairs.remove(i), checker),
        ),
{
    let outs = pair_outputs(pairs, checker);
    let rest = pairs.remove(i);
    let a = pairs.take(i);
    let one = seq![pairs[i]];
    let c = pairs.skip(i + 1);
    let oa = outs.take(i);
    let oone = seq![outs[i]];
    let oc = outs.skip(i + 1);
    assert(pairs =~= a + (one + c));
    assert(outs =~= oa + (oone + oc));
    assert(rest =~= a + c);
    assert(pair_outputs(rest, checker) =~= oa + oc);
    lemma_problems_split(a, one + c, oa, oone + oc);
    lemma_problems_split(one, c, oone, oc);
    lemma_problems_split(a, c, oa, oc);
    assert(one.drop_last() =~= Seq::<(ShapingInput, ShapingInput)>::empty());
    assert(outs[i] == (pairs[i].0.output(checker), pairs[i].1.output(checker)));
    assert(oone[0].0 != oone[0].1);
    assert(problems_spec(one.drop_last(), oone) =~= Seq::<crate::reporter::ProblemModel>::empty());
    assert(pair_problems(one, oone, 0) =~= Seq::<crate::reporter::ProblemModel>::empty());
    assert(problems_spec(one, oone) =~= Seq::<crate::reporter::ProblemModel>::empty());
    assert(problems_spec(one + c, oone + oc) =~= problems_spec(c, oc));
}

} // verus!
