use vstd::prelude::*;

verus! {

/// Number of parameter samples taken on every knot span of nonzero width.
pub const SAMPLES_PER_SPAN: usize = 8;

/// The samples of span `i`: the pairs `(i, j)` for `j` in `0..SAMPLES_PER_SPAN`.
/// Sample `(i, j)` stands for the parameter at fraction
/// `j / (SAMPLES_PER_SPAN - 1)` of the way from knot `i` to knot `i + 1`,
/// so each span is sampled at both of its ends.
pub open spec fn span_samples(i: nat) -> Seq<(usize, usize)> {
    Seq::new(SAMPLES_PER_SPAN as nat, |j: int| (i as usize, j as usize))
}

/// The sampling plan of a knot vector whose span `i` has nonzero width
/// exactly when `open_spans[i]`: the samples of each such span, span after span.
pub open spec fn spec_sample_plan(open_spans: Seq<bool>) -> Seq<(usize, usize)>
    decreases open_spans.len(),
{
    if open_spans.len() == 0 {
        Seq::empty()
    } else {
        let i = (open_spans.len() - 1) as nat;
        spec_sample_plan(open_spans.drop_last()) + if open_spans.last() {
            span_samples(i)
        } else {
            Seq::empty()
        }
    }
}

/// Number of spans of nonzero width.
pub open spec fn count_open(open_spans: Seq<bool>) -> nat
    decreases open_spans.len(),
{
    if open_spans.len() == 0 {
        0
    } else {
        count_open(open_spans.drop_last()) + if open_spans.last() {
            1nat
        } else {
            0nat
        }
    }
}

/// Plans the samples that seed the closest-point search on a spline curve:
/// spans of zero width (repeated knots) are skipped, every other span gets
/// `SAMPLES_PER_SPAN` samples, in order of span and then of position.
pub fn sample_plan(open_spans: &[bool]) -> (plan: Vec<(usize, usize)>)
    ensures
        plan@ == spec_sample_plan(open_spans@),
{
    let mut plan: Vec<(usize, usize)> = Vec::new();
    let mut i: usize = 0;
    while i < open_spans.len()
        invariant
            i <= open_spans.len(),
            plan@ == spec_sample_plan(open_spans@.take(i as int)),
        decreases open_spans.len() - i,
    {
        proof {
            assert(open_spans@.take(i + 1).drop_last() =~= open_spans@.take(i as int));
        }
        if open_spans[i] {
            let mut j: usize = 0;
            while j < SAMPLES_PER_SPAN
                invariant
                    i < open_spans.len(),
                    j <= SAMPLES_PER_SPAN,
                    plan@ == spec_sample_plan(open_spans@.take(i as int)) + span_samples(
                        i as nat,
                    ).take(j as int),
                decreases SAMPLES_PER_SPAN - j,
            {
                plan.push((i, j));
                proof {
                    assert(span_samples(i as nat).take(j + 1) =~= span_samples(i as nat).take(
                        j as int,
                    ).push((i, j)));
                }
                j = j + 1;
            }
            proof {
                assert(span_samples(i as nat).take(SAMPLES_PER_SPAN as int) =~= span_samples(
                    i as nat,
                ));
            }
        } else {
            proof {
                assert(plan@ =~= spec_sample_plan(open_spans@.take(i as int)) + Seq::empty());
            }
        }
        i = i + 1;
    }
    proof {
        assert(open_spans@.take(open_spans.len() as int) =~= open_spans@);
    }
    plan
}

/// Each span of nonzero width contributes exactly 8 samples.
pub proof fn lemma_sample_plan_len(open_spans: Seq<bool>)
    ensures
        spec_sample_plan(open_spans).len() == 8 * count_open(open_spans),
    decreases open_spans.len(),
{
    if open_spans.len() > 0 {
        lemma_sample_plan_len(open_spans.drop_last());
    }
}

/// Every planned sample lies on a span of nonzero width, at one of the
/// positions 0 to 7.
pub proof fn lemma_sample_plan_sound(open_spans: Seq<bool>)
    requires
        open_spans.len() <= usize::MAX,
    ensures
        forall|k: int|
            0 <= k < spec_sample_plan(open_spans).len() ==> {
                let (i, j) = #[trigger] spec_sample_plan(open_spans)[k];
                &&& i < open_spans.len()
                &&& open_spans[i as int]
                &&& j < 8
            },
    decreases open_spans.len(),
{
    if open_spans.len() > 0 {
        let prefix = open_spans.drop_last();
        lemma_sample_plan_sound(prefix);
        let p = spec_sample_plan(prefix);
        assert forall|k: int| 0 <= k < spec_sample_plan(open_spans).len() implies {
            let (i, j) = #[trigger] spec_sample_plan(open_spans)[k];
            &&& i < open_spans.len()
            &&& open_spans[i as int]
            &&& j < 8
        } by {
            if k < p.len() {
                assert(spec_sample_plan(open_spans)[k] == p[k]);
                assert(open_spans[p[k].0 as int] == prefix[p[k].0 as int]);
            } else {
                assert(spec_sample_plan(open_spans)[k] == span_samples(
                    (open_spans.len() - 1) as nat,
                )[k - p.len()]);
            }
        }
    }
}

/// Every span of nonzero width is sampled at every position: sample
/// `(i, j)` is in the plan for each such span `i` and each `j` below 8.
pub proof fn lemma_sample_plan_complete(open_spans: Seq<bool>, i: nat, j: nat)
    requires
        i < open_spans.len(),
        open_spans[i as int],
        j < 8,
        open_spans.len() <= usize::MAX,
    ensures
        spec_sample_plan(open_spans).contains((i as usize, j as usize)),
    decreases open_spans.len(),
{
    let prefix = open_spans.drop_last();
    let p = spec_sample_plan(prefix);
    if i + 1 < open_spans.len() {
        lemma_sample_plan_complete(prefix, i, j);
        let k = choose|k: int| 0 <= k < p.len() && p[k] == (i as usize, j as usize);
        assert(spec_sample_plan(open_spans)[k] == (i as usize, j as usize));
    } else {
        assert(spec_sample_plan(open_spans)[(p.len() + j) as int] == (i as usize, j as usize));
    }
}

/// The plan lists samples in strictly increasing order of span and then of
/// position, so no sample is taken twice.
pub proof fn lemma_sample_plan_ordered(open_spans: Seq<bool>)
    requires
        open_spans.len() <= usize::MAX,
    ensures
        forall|a: int, b: int|
            0 <= a < b < spec_sample_plan(open_spans).len() ==> {
                let (ia, ja) = #[trigger] spec_sample_plan(open_spans)[a];
                let (ib, jb) = #[trigger] spec_sample_plan(open_spans)[b];
                ia < ib || (ia == ib && ja < jb)
            },
    decreases open_spans.len(),
{
    if open_spans.len() > 0 {
        let prefix = open_spans.drop_last();
        let n = (open_spans.len() - 1) as nat;
        lemma_sample_plan_ordered(prefix);
        lemma_sample_plan_sound(prefix);
        let p = spec_sample_plan(prefix);
        let s = spec_sample_plan(open_spans);
        assert forall|a: int, b: int| 0 <= a < b < s.len() implies {
            let (ia, ja) = #[trigger] s[a];
            let (ib, jb) = #[trigger] s[b];
            ia < ib || (ia == ib && ja < jb)
        } by {
            if b < p.len() {
                assert(s[a] == p[a]);
                assert(s[b] == p[b]);
            } else if a < p.len() {
                assert(s[a] == p[a]);
                assert(p[a].0 < prefix.len());
                assert(s[b] == span_samples(n)[b - p.len()]);
            } else {
                assert(s[a] == span_samples(n)[a - p.len()]);
                assert(s[b] == span_samples(n)[b - p.len()]);
            }
        }
    }
}

} // verus!
