//! The check that pairs of shaping requests give different output.

use vstd::prelude::*;
use crate::reporter::{Fix, Problem, ProblemModel};
use crate::shaping::{feature_parses, Checker, ShapingError, ShapingInput};
use crate::text::{join, join_spec, views};

verus! {

/// The name under which the check reports.
pub open spec fn check_name() -> Seq<char> {
    "Shaping Differs"@
}

/// The features that one pair relies on: those of `before`, then those of
/// `after`.
pub open spec fn pair_features(p: (ShapingInput, ShapingInput)) -> Seq<Seq<char>> {
    views(p.0.features@) + views(p.1.features@)
}

/// The features that the pairs rely on, in the order in which they are
/// configured, repeats included.
pub open spec fn needed_features(pairs: Seq<(ShapingInput, ShapingInput)>) -> Seq<Seq<char>>
    decreases pairs.len(),
{
    if pairs.len() == 0 {
        Seq::empty()
    } else {
        needed_features(pairs.drop_last()) + pair_features(pairs.last())
    }
}

/// The names in `needed` that are not in `available`, each once, in the order
/// of their first appearance.
pub open spec fn missing_features(needed: Seq<Seq<char>>, available: Seq<Seq<char>>) -> Seq<Seq<char>>
    decreases needed.len(),
{
    if needed.len() == 0 {
        Seq::empty()
    } else {
        let prev = missing_features(needed.drop_last(), available);
        let x = needed.last();
        if available.contains(x) || prev.contains(x) {
            prev
        } else {
            prev.push(x)
        }
    }
}

/// The reason given for skipping the check when `missing` are absent.
pub open spec fn skip_reason(missing: Seq<Seq<char>>) -> Seq<char> {
    "The following features are needed for this check, but are missing: "@ + join_spec(missing, ", "@)
}

/// The diagnostic for a pair that shaped the same.
pub open spec fn problem_for(before: ShapingInput, after: ShapingInput) -> ProblemModel {
    ProblemModel {
        check_name: check_name(),
        code: "shaping-same"@,
        message: "When "@ + before.description() + " and "@ + after.description()
            + ", the output is expected to be different, but was the same"@,
        fixes: seq![
            ("add_feature"@, "A rule such that "@ + before.description() + " and "@
                + after.description() + " give different results"@),
        ],
    }
}

/// The diagnostics that pair `i` contributes, given the canonical outputs of
/// both of its requests.
pub open spec fn pair_problems(
    pairs: Seq<(ShapingInput, ShapingInput)>,
    outputs: Seq<(Seq<char>, Seq<char>)>,
    i: int,
) -> Seq<ProblemModel> {
    if outputs[i].0 == outputs[i].1 {
        seq![problem_for(pairs[i].0, pairs[i].1)]
    } else {
        Seq::empty()
    }
}

/// The diagnostics of all pairs, in the order of the pairs; `outputs[i]`
/// holds the canonical outputs of pair `i`.
pub open spec fn problems_spec(
    pairs: Seq<(ShapingInput, ShapingInput)>,
    outputs: Seq<(Seq<char>, Seq<char>)>,
) -> Seq<ProblemModel>
    decreases pairs.len(),
{
    if pairs.len() == 0 {
        Seq::empty()
    } else {
        problems_spec(pairs.drop_last(), outputs) + pair_problems(pairs, outputs, pairs.len() - 1)
    }
}

pub open spec fn problem_views(v: Seq<Problem>) -> Seq<ProblemModel> {
    v.map_values(|p: Problem| p@)
}

pub open spec fn output_views(v: Seq<(String, String)>) -> Seq<(Seq<char>, Seq<char>)> {
    v.map_values(|o: (String, String)| (o.0@, o.1@))
}

/// The canonical outputs of both requests of each pair on the checker's face.
pub open spec fn pair_outputs(
    pairs: Seq<(ShapingInput, ShapingInput)>,
    checker: &Checker,
) -> Seq<(Seq<char>, Seq<char>)> {
    Seq::new(pairs.len(), |i: int| (pairs[i].0.output(checker), pairs[i].1.output(checker)))
}

/// The summary sentence that lists every pair.
pub open spec fn describe_pairs(pairs: Seq<(ShapingInput, ShapingInput)>) -> Seq<char> {
    "in the following situations, different results are produced: "@ + join_spec(
        pairs.map_values(
            |p: (ShapingInput, ShapingInput)| p.0.description() + " versus "@ + p.1.description(),
        ),
        ", "@,
    )
}

/// Whether `v` holds a string equal to `s`.
fn contains_string(v: &Vec<String>, s: &String) -> (r: bool)
    ensures
        r == views(v@).contains(s@),
{
    let mut i: usize = 0;
    while i < v.len()
        invariant
            i <= v@.len(),
            forall|j: int| 0 <= j < i ==> v@[j]@ != s@,
        decreases v@.len() - i,
    {
        if v[i] == *s {
            assert(views(v@)[i as int] == s@);
            return true;
        }
        i = i + 1;
    }
    proof {
        if views(v@).contains(s@) {
            let k = choose|k: int| 0 <= k < views(v@).len() && views(v@)[k] == s@;
            assert(v@[k]@ == s@);
        }
    }
    false
}

/// Appends copies of the strings of `src` to `out`.
fn append_strings(out: &mut Vec<String>, src: &Vec<String>)
    ensures
        views(final(out)@) == views(old(out)@) + views(src@),
{
    let mut i: usize = 0;
    while i < src.len()
        invariant
            i <= src@.len(),
            views(out@) == views(old(out)@) + views(src@).take(i as int),
        decreases src@.len() - i,
    {
        let ghost prev = out@;
        let item = src[i].clone();
        out.push(item);
        proof {
            assert(views(out@) =~= views(prev).push(item@));
            assert(views(src@).take(i + 1) =~= views(src@).take(i as int).push(item@));
            assert(views(out@) =~= views(old(out)@) + views(src@).take(i + 1));
        }
        i = i + 1;
    }
    proof {
        assert(views(src@).take(i as int) =~= views(src@));
    }
}

/// The check that each configured pair of requests shapes differently.
#[derive(Debug)]
pub struct ShapingDiffers {
    pairs: Vec<(ShapingInput, ShapingInput)>,
    features_optional: bool,
}

impl ShapingDiffers {
    /// The configured pairs, in order.
    pub closed spec fn pairs_view(&self) -> Seq<(ShapingInput, ShapingInput)> {
        self.pairs@
    }

    /// Whether a font that lacks a needed feature makes the check skip.
    pub closed spec fn optional(&self) -> bool {
        self.features_optional
    }

    pub fn new(pairs: Vec<(ShapingInput, ShapingInput)>, features_optional: bool) -> (r: Self)
        ensures
            r.pairs_view() == pairs@,
            r.optional() == features_optional,
    {
        Self { pairs, features_optional }
    }

    pub fn pairs(&self) -> (r: &Vec<(ShapingInput, ShapingInput)>)
        ensures
            r@ == self.pairs_view(),
    {
        &self.pairs
    }

    pub fn features_optional(&self) -> (r: bool)
        ensures
            r == self.optional(),
    {
        self.features_optional
    }

    pub fn name(&self) -> (r: String)
        ensures
            r@ == check_name(),
    {
        String::from_str("Shaping Differs")
    }

    /// The features that the pairs rely on, in configuration order.
    fn needed(&self) -> (r: Vec<String>)
        ensures
            views(r@) == needed_features(self.pairs_view()),
    {
        let mut needed: Vec<String> = Vec::new();
        let mut i: usize = 0;
        while i < self.pairs.len()
            invariant
                i <= self.pairs@.len(),
                views(needed@) == needed_features(self.pairs@.take(i as int)),
            decreases self.pairs@.len() - i,
        {
            append_strings(&mut needed, &self.pairs[i].0.features);
            append_strings(&mut needed, &self.pairs[i].1.features);
            proof {
                assert(self.pairs@.take(i + 1).drop_last() =~= self.pairs@.take(i as int));
            }
            i = i + 1;
        }
        proof {
            assert(self.pairs@.take(i as int) =~= self.pairs@);
        }
        needed
    }

    /// A reason to skip the check on this font, or `None` where it applies.
    /// A reason comes only where features are optional and the font lacks
    /// some feature that a pair relies on; it names each missing one once.
    pub fn should_skip(&self, checker: &Checker) -> (r: Option<String>)
        ensures
            ({
                let missing = missing_features(
                    needed_features(self.pairs_view()),
                    views(checker.available()),
                );
                &&& r is None <==> (!self.optional() || missing.len() == 0)
                &&& r matches Some(s) ==> s@ == skip_reason(missing)
            }),
    {
        if !self.features_optional {
            return None;
        }
        let needed = self.needed();
        let ghost available = views(checker.available());
        let mut missing: Vec<String> = Vec::new();
        let mut k: usize = 0;
        while k < needed.len()
            invariant
                k <= needed@.len(),
                available == views(checker.available()),
                views(missing@) == missing_features(views(needed@).take(k as int), available),
            decreases needed@.len() - k,
        {
            proof {
                assert(views(needed@).take(k + 1).drop_last() =~= views(needed@).take(k as int));
            }
            let present = contains_string(checker.features(), &needed[k]);
            let seen = contains_string(&missing, &needed[k]);
            if !present && !seen {
                missing.push(needed[k].clone());
                proof {
                    assert(views(missing@) =~= missing_features(
                        views(needed@).take(k as int),
                        available,
                    ).push(needed@[k as int]@));
                }
            }
            k = k + 1;
        }
        proof {
            assert(views(needed@).take(k as int) =~= views(needed@));
        }
        if missing.len() == 0 {
            return None;
        }
        let mut reason = String::from_str(
            "The following features are needed for this check, but are missing: ",
        );
        let joined = join(&missing, ", ");
        reason.append(joined.as_str());
        Some(reason)
    }

    /// The diagnostics for the pairs, given the canonical output of each
    /// pair's two requests, and the number of pairs.
    pub fn report(&self, outputs: &Vec<(String, String)>) -> (r: (Vec<Problem>, usize))
        requires
            outputs@.len() == self.pairs_view().len(),
        ensures
            problem_views(r.0@) == problems_spec(self.pairs_view(), output_views(outputs@)),
            r.1 == self.pairs_view().len(),
    {
        let ghost outs = output_views(outputs@);
        let mut problems: Vec<Problem> = Vec::new();
        let mut i: usize = 0;
        while i < self.pairs.len()
            invariant
                i <= self.pairs@.len(),
                outputs@.len() == self.pairs@.len(),
                outs == output_views(outputs@),
                problem_views(problems@) == problems_spec(self.pairs@.take(i as int), outs),
            decreases self.pairs@.len() - i,
        {
            let ghost pairs_i = self.pairs@.take(i + 1);
            proof {
                assert(pairs_i.drop_last() =~= self.pairs@.take(i as int));
                }
            let before = &self.pairs[i].0;
            let after = &self.pairs[i].1;
            if outputs[i].0 == outputs[i].1 {
                let before_text = before.describe();
                let after_text = after.describe();
                let mut message = String::from_str("When ");
                message.append(before_text.as_str());
                message.append(" and ");
                message.append(after_text.as_str());
                message.append(", the output is expected to be different, but was the same");
                let mut fail = Problem::new("Shaping Differs", "shaping-same", message);
                let mut thing = String::from_str("A rule such that ");
                thing.append(before_text.as_str());
                thing.append(" and ");
                thing.append(after_text.as_str());
                thing.append(" give different results");
                fail.add_fix(Fix::new("add_feature", thing));
                let ghost prev = problems@;
                let ghost fail_view = fail@;
                problems.push(fail);
                proof {
                    assert(fail_view.fixes =~= problem_for(pairs_i[i as int].0, pairs_i[i as int].1).fixes);
                    assert(problem_views(problems@) =~= problem_views(prev).push(fail_view));
                }
            }
            i = i + 1;
        }
        proof {
            assert(self.pairs@.take(i as int) =~= self.pairs@);
        }
        (problems, self.pairs.len())
    }

    /// Shapes both requests of every pair on the checker's face and reports
    /// each pair whose two canonical outputs are the same, with the number of
    /// pairs. Fails exactly when some request has a setting that the engine
    /// refuses.
    pub fn execute(&self, checker: &Checker) -> (r: Result<(Vec<Problem>, usize), ShapingError>)
        ensures
            r is Ok <==> (forall|i: int|
                0 <= i < self.pairs_view().len() ==> (#[trigger] self.pairs_view()[i]).0.shapeable()
                    && self.pairs_view()[i].1.shapeable()),
            r matches Err(ShapingError::InvalidFeature(f)) ==> !feature_parses(f@),
            r matches Err(ShapingError::InvalidLanguage(l)) ==> l@.len() == 0,
            r matches Ok((problems, count)) ==> {
                &&& count == self.pairs_view().len()
                &&& problem_views(problems@) == problems_spec(
                    self.pairs_view(),
                    pair_outputs(self.pairs_view(), checker),
                )
            },
    {
        let mut outputs: Vec<(String, String)> = Vec::new();
        let mut i: usize = 0;
        while i < self.pairs.len()
            invariant
                i <= self.pairs@.len(),
                outputs@.len() == i,
                forall|j: int| 0 <= j < i ==> (#[trigger] self.pairs@[j]).0.shapeable()
                    && self.pairs@[j].1.shapeable(),
                forall|j: int| 0 <= j < i ==> #[trigger] output_views(outputs@)[j] == pair_outputs(
                    self.pairs@,
                    checker,
                )[j],
            decreases self.pairs@.len() - i,
        {
            let before = match self.pairs[i].0.shape(checker) {
                Ok(s) => s,
                Err(e) => {
                    assert(!self.pairs_view()[i as int].0.shapeable() || !self.pairs_view()[i as int].1.shapeable());
                    return Err(e);
                },
            };
            let after = match self.pairs[i].1.shape(checker) {
                Ok(s) => s,
                Err(e) => {
                    assert(!self.pairs_view()[i as int].0.shapeable() || !self.pairs_view()[i as int].1.shapeable());
                    return Err(e);
                },
            };
            let ghost prev = outputs@;
            outputs.push((before, after));
            proof {
                assert forall|j: int| 0 <= j < i + 1 implies #[trigger] output_views(outputs@)[j]
                    == pair_outputs(self.pairs@, checker)[j] by {
                    if j < i {
                        assert(outputs@[j] == prev[j]);
                        assert(output_views(prev)[j] == pair_outputs(self.pairs@, checker)[j]);
                    }
                }
            }
            i = i + 1;
        }
        let r = self.report(&outputs);
        proof {
            assert(output_views(outputs@) =~= pair_outputs(self.pairs@, checker));
        }
        Ok(r)
    }

    /// One sentence that lists every pair as "A versus B".
    pub fn describe(&self) -> (r: String)
        ensures
            r@ == describe_pairs(self.pairs_view()),
    {
        let ghost phrase = |p: (ShapingInput, ShapingInput)| p.0.description() + " versus "@ + p.1.description();
        let mut phrases: Vec<String> = Vec::new();
        let mut i: usize = 0;
        while i < self.pairs.len()
            invariant
                i <= self.pairs@.len(),
                phrase == (|p: (ShapingInput, ShapingInput)| p.0.description() + " versus "@ + p.1.description()),
                views(phrases@) == self.pairs@.take(i as int).map_values(phrase),
            decreases self.pairs@.len() - i,
        {
            let mut one = self.pairs[i].0.describe();
            one.append(" versus ");
            let other = self.pairs[i].1.describe();
            one.append(other.as_str());
            let ghost prev = phrases@;
            phrases.push(one);
            proof {
                assert(views(phrases@) =~= views(prev).push(one@));
                assert(self.pairs@.take(i + 1).map_values(phrase)
                    =~= self.pairs@.take(i as int).map_values(phrase).push(one@));
            }
            i = i + 1;
        }
        proof {
            assert(self.pairs@.take(i as int) =~= self.pairs@);
        }
        let mut out = String::from_str("in the following situations, different results are produced: ");
        let joined = join(&phrases, ", ");
        out.append(joined.as_str());
        out
    }
}

} // verus!
