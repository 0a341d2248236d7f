use vstd::prelude::*;
use crate::config::agent::{KdlAgent, KdlAgentView};
use crate::config::merge::merge_drafts;
use crate::error::{ConfigError, ConfigErrorView};
use crate::text::Duplicate;
use crate::text_map::{assoc_get, StrMap};

verus! {

/// The draft `target` with the drafts of the named parents merged into it, one
/// after the other, each as the lower side: so the child's own values stay, and of
/// two parents the one named first wins. Only the parents' own drafts are used:
/// what the parents inherit themselves is not followed. A parent that `drafts`
/// does not hold gives an error that names the child and that parent.
pub open spec fn inherit(
    child: Seq<char>,
    target: KdlAgentView,
    parents: Seq<Seq<char>>,
    drafts: Seq<(Seq<char>, KdlAgentView)>,
) -> Result<KdlAgentView, ConfigErrorView>
    decreases parents.len(),
{
    if parents.len() == 0 {
        Ok(target)
    } else {
        match inherit(child, target, parents.drop_last(), drafts) {
            Err(e) => Err(e),
            Ok(acc) => match assoc_get(drafts, parents.last()) {
                None => Err(ConfigErrorView::MissingParent { child, parent: parents.last() }),
                Some(parent) => Ok(merge_drafts(acc, parent)),
            },
        }
    }
}

/// The agent that `target` is once its parents are merged in, in the order in which
/// `target` names them. It keeps the name of `target`.
pub open spec fn resolved_agent(
    target: KdlAgentView,
    drafts: Seq<(Seq<char>, KdlAgentView)>,
) -> Result<KdlAgentView, ConfigErrorView> {
    match inherit(target.name, target, target.inherits, drafts) {
        Ok(merged) => Ok(KdlAgentView { name: target.name, ..merged }),
        Err(e) => Err(e),
    }
}

/// The view of a resolved agent or of an error.
pub open spec fn result_view(r: Result<KdlAgent, ConfigError>) -> Result<
    KdlAgentView,
    ConfigErrorView,
> {
    match r {
        Ok(a) => Ok(a@),
        Err(e) => Err(e@),
    }
}

/// An agent without parents is not changed.
pub proof fn lemma_no_parents_unchanged(
    target: KdlAgentView,
    drafts: Seq<(Seq<char>, KdlAgentView)>,
)
    requires
        target.inherits.len() == 0,
    ensures
        resolved_agent(target, drafts) == Ok::<KdlAgentView, ConfigErrorView>(target),
{
}

/// With one parent the agent is the merge of its draft, as the higher side, with
/// the parent's draft; a field that the child decides is the child's.
pub proof fn lemma_one_parent(
    target: KdlAgentView,
    parent: KdlAgentView,
    drafts: Seq<(Seq<char>, KdlAgentView)>,
)
    requires
        target.inherits.len() == 1,
        assoc_get(drafts, target.inherits[0]) == Some(parent),
    ensures
        resolved_agent(target, drafts) == Ok::<KdlAgentView, ConfigErrorView>(
            merge_drafts(target, parent),
        ),
        target.description is Some ==> resolved_agent(target, drafts)->Ok_0.description
            == target.description,
{
    assert(target.inherits.drop_last().len() == 0);
    assert(inherit(target.name, target, target.inherits.drop_last(), drafts) == Ok::<
        KdlAgentView,
        ConfigErrorView,
    >(target));
}

/// A parent that is not declared is an error, whatever else the agent inherits.
pub proof fn lemma_missing_parent_fails(
    target: KdlAgentView,
    drafts: Seq<(Seq<char>, KdlAgentView)>,
    i: int,
)
    requires
        0 <= i < target.inherits.len(),
        assoc_get(drafts, target.inherits[i]) is None,
    ensures
        resolved_agent(target, drafts) is Err,
{
    lemma_inherit_fails(target.name, target, target.inherits, drafts, i);
}

/// A parent that is not declared makes `inherit` fail.
pub proof fn lemma_inherit_fails(
    child: Seq<char>,
    target: KdlAgentView,
    parents: Seq<Seq<char>>,
    drafts: Seq<(Seq<char>, KdlAgentView)>,
    i: int,
)
    requires
        0 <= i < parents.len(),
        assoc_get(drafts, parents[i]) is None,
    ensures
        inherit(child, target, parents, drafts) is Err,
    decreases parents.len(),
{
    if i < parents.len() - 1 {
        assert(parents.drop_last()[i] == parents[i]);
        lemma_inherit_fails(child, target, parents.drop_last(), drafts, i);
    }
}

/// Whether `drafts` holds every one of the parents.
pub open spec fn parents_declared(
    parents: Seq<Seq<char>>,
    drafts: Seq<(Seq<char>, KdlAgentView)>,
) -> bool {
    forall|i: int| 0 <= i < parents.len() ==> assoc_get(drafts, #[trigger] parents[i]) is Some
}

/// Parents that are all declared can be merged in.
pub proof fn lemma_inherit_succeeds(
    child: Seq<char>,
    target: KdlAgentView,
    parents: Seq<Seq<char>>,
    drafts: Seq<(Seq<char>, KdlAgentView)>,
)
    requires
        parents_declared(parents, drafts),
    ensures
        inherit(child, target, parents, drafts) is Ok,
    decreases parents.len(),
{
    if parents.len() > 0 {
        let front = parents.drop_last();
        assert forall|i: int| 0 <= i < front.len() implies assoc_get(
            drafts,
            #[trigger] front[i],
        ) is Some by {
            assert(front[i] == parents[i]);
        }
        lemma_inherit_succeeds(child, target, front, drafts);
        assert(parents[parents.len() - 1] == parents.last());
    }
}

/// The error names the child and the first of its parents that is not declared.
pub proof fn lemma_first_missing_parent(
    child: Seq<char>,
    target: KdlAgentView,
    parents: Seq<Seq<char>>,
    drafts: Seq<(Seq<char>, KdlAgentView)>,
    i: int,
)
    requires
        0 <= i < parents.len(),
        assoc_get(drafts, parents[i]) is None,
        forall|j: int| 0 <= j < i ==> assoc_get(drafts, #[trigger] parents[j]) is Some,
    ensures
        inherit(child, target, parents, drafts) == Err::<KdlAgentView, ConfigErrorView>(
            ConfigErrorView::MissingParent { child, parent: parents[i] },
        ),
    decreases parents.len(),
{
    let front = parents.drop_last();
    if i < parents.len() - 1 {
        assert(front[i] == parents[i]);
        assert forall|j: int| 0 <= j < i implies assoc_get(drafts, #[trigger] front[j]) is Some by {
            assert(front[j] == parents[j]);
        }
        lemma_first_missing_parent(child, target, front, drafts, i);
    } else {
        assert forall|j: int| 0 <= j < front.len() implies assoc_get(
            drafts,
            #[trigger] front[j],
        ) is Some by {
            assert(front[j] == parents[j]);
        }
        lemma_inherit_succeeds(child, target, front, drafts);
    }
}

/// An agent is resolved exactly when every parent it names is declared.
pub proof fn lemma_resolved_iff_declared(
    target: KdlAgentView,
    drafts: Seq<(Seq<char>, KdlAgentView)>,
)
    ensures
        resolved_agent(target, drafts) is Ok <==> parents_declared(target.inherits, drafts),
{
    if parents_declared(target.inherits, drafts) {
        lemma_inherit_succeeds(target.name, target, target.inherits, drafts);
    } else {
        let i = choose|i: int|
            0 <= i < target.inherits.len() && !(assoc_get(
                drafts,
                #[trigger] target.inherits[i],
            ) is Some);
        lemma_inherit_fails(target.name, target, target.inherits, drafts, i);
    }
}

/// An error found among the first `n` parents is the error of all of them.
pub proof fn lemma_inherit_error_stays(
    child: Seq<char>,
    target: KdlAgentView,
    parents: Seq<Seq<char>>,
    drafts: Seq<(Seq<char>, KdlAgentView)>,
    n: int,
)
    requires
        0 <= n <= parents.len(),
        inherit(child, target, parents.take(n), drafts) is Err,
    ensures
        inherit(child, target, parents, drafts) == inherit(child, target, parents.take(n), drafts),
    decreases parents.len() - n,
{
    if n < parents.len() {
        assert(parents.take(n + 1).drop_last() =~= parents.take(n));
        lemma_inherit_error_stays(child, target, parents, drafts, n + 1);
    } else {
        assert(parents.take(n) =~= parents);
    }
}

/// Merges the drafts of the parents of `target` into it.
pub fn resolve(drafts: &StrMap<KdlAgent>, target: &KdlAgent) -> (r: Result<KdlAgent, ConfigError>)
    ensures
        result_view(r) == resolved_agent(target@, drafts@),
        r is Ok <==> parents_declared(target@.inherits, drafts@),
        target@.inherits.len() == 0 ==> r is Ok && r->Ok_0@ == target@,
{
    proof {
        lemma_resolved_iff_declared(target@, drafts@);
    }
    let mut acc = target.duplicate();
    let n = target.inherits.len();
    let mut i: usize = 0;
    proof {
        assert(target@.inherits.take(0) =~= Seq::<Seq<char>>::empty());
    }
    while i < n
        invariant
            i <= n,
            n == target@.inherits.len(),
            inherit(target@.name, target@, target@.inherits.take(i as int), drafts@) == Ok::<
                KdlAgentView,
                ConfigErrorView,
            >(acc@),
        decreases n - i,
    {
        let parent_name = target.inherits.get(i);
        proof {
            let step = target@.inherits.take(i as int + 1);
            assert(step.drop_last() =~= target@.inherits.take(i as int));
            assert(step.last() == target@.inherits[i as int]);
        }
        match drafts.get(parent_name.as_str()) {
            None => {
                proof {
                    lemma_inherit_error_stays(
                        target@.name,
                        target@,
                        target@.inherits,
                        drafts@,
                        i as int + 1,
                    );
                }
                return Err(
                    ConfigError::MissingParent {
                        child: target.name.clone(),
                        parent: parent_name.clone(),
                    },
                );
            },
            Some(parent) => {
                acc = acc.merge(parent.duplicate());
            },
        }
        i += 1;
    }
    proof {
        assert(target@.inherits.take(n as int) =~= target@.inherits);
    }
    acc.name = target.name.clone();
    Ok(acc)
}

/// The agents of `drafts` with their parents merged in, in the order of `drafts`;
/// the first agent that cannot be resolved gives the error.
pub open spec fn resolved_all(
    targets: Seq<(Seq<char>, KdlAgentView)>,
    drafts: Seq<(Seq<char>, KdlAgentView)>,
) -> Result<Seq<KdlAgentView>, ConfigErrorView>
    decreases targets.len(),
{
    if targets.len() == 0 {
        Ok(Seq::empty())
    } else {
        match resolved_all(targets.drop_last(), drafts) {
            Err(e) => Err(e),
            Ok(earlier) => match resolved_agent(targets.last().1, drafts) {
                Err(e) => Err(e),
                Ok(agent) => Ok(earlier.push(agent)),
            },
        }
    }
}

/// All agents are resolved exactly when every parent that any of them names is
/// declared, and then each is resolved on its own.
pub proof fn lemma_resolved_all_pointwise(
    targets: Seq<(Seq<char>, KdlAgentView)>,
    drafts: Seq<(Seq<char>, KdlAgentView)>,
)
    ensures
        resolved_all(targets, drafts) is Ok <==> forall|i: int|
            0 <= i < targets.len() ==> parents_declared((#[trigger] targets[i]).1.inherits, drafts),
        resolved_all(targets, drafts) is Ok ==> {
            let all = resolved_all(targets, drafts)->Ok_0;
            &&& all.len() == targets.len()
            &&& forall|i: int|
                0 <= i < targets.len() ==> resolved_agent(targets[i].1, drafts) == Ok::<
                    KdlAgentView,
                    ConfigErrorView,
                >(#[trigger] all[i])
        },
    decreases targets.len(),
{
    if targets.len() > 0 {
        let front = targets.drop_last();
        lemma_resolved_all_pointwise(front, drafts);
        lemma_resolved_iff_declared(targets.last().1, drafts);
        assert(targets[targets.len() - 1] == targets.last());
        if resolved_all(targets, drafts) is Ok {
            let all = resolved_all(targets, drafts)->Ok_0;
            let earlier = resolved_all(front, drafts)->Ok_0;
            assert forall|i: int| 0 <= i < targets.len() implies parents_declared(
                (#[trigger] targets[i]).1.inherits,
                drafts,
            ) by {
                if i < front.len() {
                    assert(front[i] == targets[i]);
                }
            }
            assert forall|i: int| 0 <= i < targets.len() implies resolved_agent(
                targets[i].1,
                drafts,
            ) == Ok::<KdlAgentView, ConfigErrorView>(#[trigger] all[i]) by {
                if i < front.len() {
                    assert(front[i] == targets[i]);
                    assert(all[i] == earlier[i]);
                }
            }
        }
        if forall|i: int|
            0 <= i < targets.len() ==> parents_declared((#[trigger] targets[i]).1.inherits, drafts) {
            assert forall|i: int| 0 <= i < front.len() implies parents_declared(
                (#[trigger] front[i]).1.inherits,
                drafts,
            ) by {
                assert(front[i] == targets[i]);
            }
        }
    }
}

/// An error found among the first `n` agents is the error of all of them.
pub proof fn lemma_resolve_error_stays(
    targets: Seq<(Seq<char>, KdlAgentView)>,
    drafts: Seq<(Seq<char>, KdlAgentView)>,
    n: int,
)
    requires
        0 <= n <= targets.len(),
        resolved_all(targets.take(n), drafts) is Err,
    ensures
        resolved_all(targets, drafts) == resolved_all(targets.take(n), drafts),
    decreases targets.len() - n,
{
    if n < targets.len() {
        assert(targets.take(n + 1).drop_last() =~= targets.take(n));
        lemma_resolve_error_stays(targets, drafts, n + 1);
    } else {
        assert(targets.take(n) =~= targets);
    }
}

/// The views of a list of drafts.
pub open spec fn draft_views(agents: Seq<KdlAgent>) -> Seq<KdlAgentView> {
    agents.map_values(|a: KdlAgent| a@)
}

/// The view of a list of resolved agents or of an error.
pub open spec fn results_view(r: Result<Vec<KdlAgent>, ConfigError>) -> Result<
    Seq<KdlAgentView>,
    ConfigErrorView,
> {
    match r {
        Ok(agents) => Ok(draft_views(agents@)),
        Err(e) => Err(e@),
    }
}

/// Merges into every agent of `drafts` the drafts of its parents.
pub fn resolve_all(drafts: &StrMap<KdlAgent>) -> (r: Result<Vec<KdlAgent>, ConfigError>)
    ensures
        results_view(r) == resolved_all(drafts@, drafts@),
        r is Ok <==> forall|i: int|
            0 <= i < drafts@.len() ==> parents_declared((#[trigger] drafts@[i]).1.inherits, drafts@),
        r is Ok ==> r->Ok_0@.len() == drafts@.len() && forall|i: int|
            0 <= i < drafts@.len() ==> resolved_agent(drafts@[i].1, drafts@) == Ok::<
                KdlAgentView,
                ConfigErrorView,
            >((#[trigger] r->Ok_0@[i])@),
{
    let mut agents: Vec<KdlAgent> = Vec::new();
    let n = drafts.len();
    let mut i: usize = 0;
    proof {
        assert(draft_views(agents@) =~= Seq::<KdlAgentView>::empty());
        assert(drafts@.take(0) =~= Seq::<(Seq<char>, KdlAgentView)>::empty());
    }
    while i < n
        invariant
            i <= n,
            n == drafts@.len(),
            resolved_all(drafts@.take(i as int), drafts@) == Ok::<
                Seq<KdlAgentView>,
                ConfigErrorView,
            >(draft_views(agents@)),
        decreases n - i,
    {
        proof {
            let step = drafts@.take(i as int + 1);
            assert(step.drop_last() =~= drafts@.take(i as int));
            assert(step.last() == drafts@[i as int]);
        }
        let ghost before = draft_views(agents@);
        match resolve(drafts, drafts.value_at(i)) {
            Err(e) => {
                proof {
                    lemma_resolve_error_stays(drafts@, drafts@, i as int + 1);
                    lemma_resolved_all_pointwise(drafts@, drafts@);
                }
                return Err(e);
            },
            Ok(agent) => {
                agents.push(agent);
                proof {
                    assert(draft_views(agents@) =~= before.push(agent@));
                }
            },
        }
        i += 1;
    }
    proof {
        assert(drafts@.take(n as int) =~= drafts@);
        lemma_resolved_all_pointwise(drafts@, drafts@);
        assert forall|i: int| 0 <= i < drafts@.len() implies resolved_agent(
            drafts@[i].1,
            drafts@,
        ) == Ok::<KdlAgentView, ConfigErrorView>((#[trigger] agents@[i])@) by {
            assert(draft_views(agents@)[i] == agents@[i]@);
        }
    }
    Ok(agents)
}

} // verus!
