use vstd::prelude::*;

use crate::error::Error;

verus! {

/// The names at the positions where the attempt outcome equals `keep`,
/// in their original order.
pub open spec fn spec_filter_by(names: Seq<String>, ok: Seq<bool>, keep: bool) -> Seq<String>
    decreases names.len(),
{
    if names.len() == 0 {
        Seq::<String>::empty()
    } else {
        let rest = spec_filter_by(names.drop_first(), ok.drop_first(), keep);
        if ok[0] == keep {
            seq![names[0]] + rest
        } else {
            rest
        }
    }
}

proof fn lemma_filter_by_take_step(names: Seq<String>, ok: Seq<bool>, i: int, keep: bool)
    requires
        names.len() == ok.len(),
        0 <= i < names.len(),
    ensures
        spec_filter_by(names.take(i + 1), ok.take(i + 1), keep) == spec_filter_by(
            names.take(i),
            ok.take(i),
            keep,
        ) + if ok[i] == keep {
            seq![names[i]]
        } else {
            Seq::<String>::empty()
        },
    decreases i,
{
    if i == 0 {
        reveal_with_fuel(spec_filter_by, 3);
        assert(names.take(1) =~= seq![names[0]]);
        assert(ok.take(1) =~= seq![ok[0]]);
        assert(names.take(1)[0] == names[0]);
        assert(ok.take(1)[0] == ok[0]);
        assert(names.take(1).drop_first() =~= Seq::<String>::empty());
        assert(ok.take(1).drop_first() =~= Seq::<bool>::empty());
        assert(names.take(0) =~= Seq::<String>::empty());
        if ok[0] == keep {
            assert(spec_filter_by(names.take(1), ok.take(1), keep) =~= seq![names[0]]);
        } else {
            assert(spec_filter_by(names.take(1), ok.take(1), keep) =~= Seq::<String>::empty());
        }
        assert(spec_filter_by(names.take(0), ok.take(0), keep) =~= Seq::<String>::empty());
        assert(spec_filter_by(names.take(0), ok.take(0), keep) + (if ok[0] == keep {
            seq![names[0]]
        } else {
            Seq::<String>::empty()
        }) =~= (if ok[0] == keep {
            seq![names[0]]
        } else {
            Seq::<String>::empty()
        }));
    } else {
        let n1 = names.take(i + 1);
        let o1 = ok.take(i + 1);
        let n0 = names.take(i);
        let o0 = ok.take(i);
        assert(n1[0] == names[0]);
        assert(n1.drop_first() =~= names.drop_first().take(i));
        assert(o1.drop_first() =~= ok.drop_first().take(i));
        assert(n0[0] == names[0]);
        assert(n0.drop_first() =~= names.drop_first().take(i - 1));
        assert(o0.drop_first() =~= ok.drop_first().take(i - 1));
        lemma_filter_by_take_step(names.drop_first(), ok.drop_first(), i - 1, keep);
        assert(names.drop_first()[i - 1] == names[i]);
        assert(ok.drop_first()[i - 1] == ok[i]);
        if ok[0] == keep {
            assert(seq![names[0]] + (spec_filter_by(names.drop_first().take(i - 1), ok.drop_first().take(i - 1), keep)
                + (if ok[i] == keep { seq![names[i]] } else { Seq::<String>::empty() }))
                =~= (seq![names[0]] + spec_filter_by(names.drop_first().take(i - 1), ok.drop_first().take(i - 1), keep))
                + (if ok[i] == keep { seq![names[i]] } else { Seq::<String>::empty() }));
        }
    }
}

proof fn lemma_filter_by_whole(names: Seq<String>, ok: Seq<bool>, keep: bool)
    requires
        names.len() == ok.len(),
    ensures
        spec_filter_by(names.take(names.len() as int), ok.take(ok.len() as int), keep)
            == spec_filter_by(names, ok, keep),
{
    assert(names.take(names.len() as int) =~= names);
    assert(ok.take(ok.len() as int) =~= ok);
}

/// Every name in a batch either gets its link or is reported failed: the
/// two groups partition the batch.
pub proof fn lemma_link_outcomes_partition(names: Seq<String>, ok: Seq<bool>)
    requires
        names.len() == ok.len(),
    ensures
        spec_filter_by(names, ok, true).len() + spec_filter_by(names, ok, false).len()
            == names.len(),
    decreases names.len(),
{
    if names.len() > 0 {
        lemma_link_outcomes_partition(names.drop_first(), ok.drop_first());
    }
}

/// The outcome of one best-effort link refresh: which names got a fresh
/// link, and which could not.
pub struct LinkReport {
    pub created: Vec<String>,
    pub failed: Vec<String>,
}

/// Sorts a batch of per-name link attempts into created and failed names;
/// `ok[i]` reports whether the attempt for `names[i]` succeeded. Order is
/// kept in both groups.
pub fn link_outcomes(names: &Vec<String>, ok: &Vec<bool>) -> (r: LinkReport)
    requires
        names@.len() == ok@.len(),
    ensures
        r.created@ == spec_filter_by(names@, ok@, true),
        r.failed@ == spec_filter_by(names@, ok@, false),
{
    let mut created: Vec<String> = Vec::new();
    let mut failed: Vec<String> = Vec::new();
    let mut i: usize = 0;
    while i < names.len()
        invariant
            names@.len() == ok@.len(),
            0 <= i <= names@.len(),
            created@ == spec_filter_by(names@.take(i as int), ok@.take(i as int), true),
            failed@ == spec_filter_by(names@.take(i as int), ok@.take(i as int), false),
        decreases names@.len() - i,
    {
        proof {
            lemma_filter_by_take_step(names@, ok@, i as int, true);
            lemma_filter_by_take_step(names@, ok@, i as int, false);
        }
        if ok[i] {
            created.push(names[i].clone());
            proof {
                assert(created@ =~= spec_filter_by(
                    names@.take(i + 1 as int),
                    ok@.take(i + 1 as int),
                    true,
                ));
            }
        } else {
            failed.push(names[i].clone());
            proof {
                assert(failed@ =~= spec_filter_by(
                    names@.take(i + 1 as int),
                    ok@.take(i + 1 as int),
                    false,
                ));
            }
        }
        i = i + 1;
    }
    proof {
        lemma_filter_by_whole(names@, ok@, true);
        lemma_filter_by_whole(names@, ok@, false);
    }
    LinkReport { created, failed }
}

/// Judges a batch of per-name link attempts the way the link synchronizer
/// reports them: every name is attempted, the successes stand whatever else
/// failed, and all failures are reported once, in one aggregate error.
pub fn update(names: &Vec<String>, ok: &Vec<bool>) -> (r: Result<(), Error>)
    requires
        names@.len() == ok@.len(),
    ensures
        r is Ok <==> spec_filter_by(names@, ok@, false).len() == 0,
        r matches Err(e) ==> e matches Error::LinkFailure(f) && f@ == spec_filter_by(
            names@,
            ok@,
            false,
        ),
{
    let report = link_outcomes(names, ok);
    if report.failed.len() == 0 {
        proof {
            assert(spec_filter_by(names@, ok@, false).len() == 0);
        }
        Ok(())
    } else {
        Err(Error::LinkFailure(report.failed))
    }
}

} // verus!
