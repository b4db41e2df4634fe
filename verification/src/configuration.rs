use vstd::prelude::*;

use crate::context::Context;
use crate::environment::{
    environment_placeholder_free, lemma_environment_resolve_noop, same_environment_text,
    Environment,
};
use crate::resolve::Resolvable;
use crate::system::System;
use crate::text::{lemma_lex_le_trans, lemma_lex_total, lex_le, lex_lt, str_eq, str_lt, str_starts_with};

verus! {

broadcast use vstd::seq_lib::group_to_multiset_ensures, vstd::multiset::group_multiset_axioms;

/// The sequence of environments a reference list denotes.
pub open spec fn deref_envs(s: Seq<&Environment>) -> Seq<Environment> {
    s.map_values(|e: &Environment| *e)
}

/// Environments listed in ascending name order.
pub open spec fn sorted_by_name(s: Seq<Environment>) -> bool {
    forall|t1: int, t2: int|
        #![trigger s[t1], s[t2]]
        0 <= t1 <= t2 < s.len() ==> lex_le(s[t1].name@, s[t2].name@)
}

/// Whether some environment carries exactly this name.
pub open spec fn has_exact(envs: Seq<Environment>, name: Seq<char>) -> bool {
    exists|i: int| 0 <= i < envs.len() && envs[i].name@ == name
}

/// The position of the first environment carrying exactly this name, or a
/// negative value if there is none.
pub open spec fn exact_index(envs: Seq<Environment>, name: Seq<char>) -> int
    decreases envs.len(),
{
    if envs.len() == 0 {
        -1
    } else if envs[0].name@ == name {
        0
    } else {
        let r = exact_index(envs.drop_first(), name);
        if r < 0 {
            -1
        } else {
            r + 1
        }
    }
}

proof fn lemma_exact_index(envs: Seq<Environment>, name: Seq<char>)
    ensures
        has_exact(envs, name) <==> exact_index(envs, name) >= 0,
        has_exact(envs, name) ==> {
            let ei = exact_index(envs, name);
            &&& 0 <= ei < envs.len()
            &&& envs[ei].name@ == name
            &&& forall|j: int| 0 <= j < ei ==> envs[j].name@ != name
        },
    decreases envs.len(),
{
    if envs.len() == 0 {
    } else if envs[0].name@ == name {
    } else {
        let rest = envs.drop_first();
        lemma_exact_index(rest, name);
        assert forall|i: int| 0 <= i < envs.len() && envs[i].name@ == name implies exact_index(
            envs,
            name,
        ) >= 0 by {
            assert(rest[i - 1] == envs[i]);
        }
        if has_exact(envs, name) {
            let ei = exact_index(envs, name);
            assert(ei == exact_index(rest, name) + 1);
            assert forall|j: int| 0 <= j < ei implies envs[j].name@ != name by {
                if j > 0 {
                    assert(rest[j - 1] == envs[j]);
                }
            }
        } else {
            if exact_index(envs, name) >= 0 {
                let ri = exact_index(rest, name);
                assert(envs[ri + 1] == rest[ri]);
            }
        }
    }
}

/// The environments whose names the filter is a prefix of, in declaration
/// order.
pub open spec fn prefix_matches(envs: Seq<Environment>, name: Seq<char>) -> Seq<Environment>
    decreases envs.len(),
{
    if envs.len() == 0 {
        Seq::empty()
    } else {
        let rest = prefix_matches(envs.drop_last(), name);
        if name.is_prefix_of(envs.last().name@) {
            rest.push(envs.last())
        } else {
            rest
        }
    }
}

/// Where a new name belongs in a name-sorted reference list: the position
/// of the first entry whose name is strictly greater.
fn insert_position(out: &Vec<&Environment>, name: &String) -> (j: usize)
    ensures
        j <= out@.len(),
        forall|t: int| 0 <= t < j ==> !lex_lt(name@, (#[trigger] out@[t]).name@),
        j < out@.len() ==> lex_lt(name@, out@[j as int].name@),
{
    let mut j: usize = 0;
    while j < out.len()
        invariant
            j <= out@.len(),
            forall|t: int| 0 <= t < j ==> !lex_lt(name@, (#[trigger] out@[t]).name@),
        decreases out@.len() - j,
    {
        if str_lt(name.as_str(), out[j].name.as_str()) {
            return j;
        }
        j = j + 1;
    }
    j
}

/// Inserts one environment reference into a name-sorted list, keeping the
/// order and adding exactly that environment to the contents.
fn insert_sorted<'a>(out: &mut Vec<&'a Environment>, e: &'a Environment)
    requires
        sorted_by_name(deref_envs(old(out)@)),
    ensures
        sorted_by_name(deref_envs(final(out)@)),
        deref_envs(final(out)@).to_multiset() == deref_envs(old(out)@).to_multiset().insert(*e),
{
    let ghost pre = deref_envs(out@);
    let j = insert_position(out, &e.name);
    out.insert(j, e);
    proof {
        let post = deref_envs(out@);
        assert(post =~= pre.take(j as int).push(*e) + pre.skip(j as int));
        assert forall|t1: int, t2: int|
            #![trigger post[t1], post[t2]]
            0 <= t1 <= t2 < post.len() implies lex_le(post[t1].name@, post[t2].name@) by {
            if t1 < j {
                assert(post[t1] == pre[t1]);
                assert(!lex_lt(e.name@, pre[t1].name@));
                lemma_lex_total(e.name@, pre[t1].name@);
            } else if t1 == j {
                assert(post[t1] == *e);
            } else {
                assert(post[t1] == pre[t1 - 1]);
            }
            if t2 < j {
                assert(post[t2] == pre[t2]);
            } else if t2 == j {
                assert(post[t2] == *e);
            } else {
                assert(post[t2] == pre[t2 - 1]);
            }
            if t1 < j && t2 == j {
                // pre[t1] does not come after e, so it comes before or equal.
            } else if t1 == j && t2 > j {
                // e comes strictly before pre[j], which comes no later than
                // pre[t2 - 1].
                assert(lex_lt(e.name@, pre[j as int].name@));
                assert(lex_le(pre[j as int].name@, pre[t2 - 1].name@));
                lemma_lex_le_trans(e.name@, pre[j as int].name@, pre[t2 - 1].name@);
            } else if t1 < j && t2 > j {
                assert(lex_le(pre[t1].name@, pre[t2 - 1].name@));
            }
        }
        assert(pre =~= pre.take(j as int) + pre.skip(j as int));
        vstd::seq_lib::lemma_multiset_commutative(pre.take(j as int).push(*e), pre.skip(j as int));
        vstd::seq_lib::lemma_multiset_commutative(pre.take(j as int), pre.skip(j as int));
        assert(pre.take(j as int).push(*e).to_multiset() =~= pre.take(j as int).to_multiset()
            .insert(*e));
        assert(post.to_multiset() =~= pre.to_multiset().insert(*e));
    }
}

/// Sorts environment references by name; the result holds exactly the same
/// environments.
fn sort_by_name<'a>(list: Vec<&'a Environment>) -> (r: Vec<&'a Environment>)
    ensures
        sorted_by_name(deref_envs(r@)),
        deref_envs(r@).to_multiset() == deref_envs(list@).to_multiset(),
{
    let mut out: Vec<&Environment> = Vec::new();
    let mut t: usize = 0;
    proof {
        assert(deref_envs(list@.take(0)) =~= Seq::<Environment>::empty());
        assert(deref_envs(out@) =~= Seq::<Environment>::empty());
        assert(deref_envs(out@).to_multiset() =~= deref_envs(list@.take(0)).to_multiset());
    }
    while t < list.len()
        invariant
            t <= list@.len(),
            sorted_by_name(deref_envs(out@)),
            deref_envs(out@).to_multiset() == deref_envs(list@.take(t as int)).to_multiset(),
        decreases list@.len() - t,
    {
        insert_sorted(&mut out, list[t]);
        proof {
            assert(deref_envs(list@.take(t + 1)) =~= deref_envs(list@.take(t as int)).push(
                *list@[t as int],
            ));
        }
        t = t + 1;
    }
    proof {
        assert(list@.take(list@.len() as int) =~= list@);
        assert(deref_envs(list@.take(list@.len() as int)) =~= deref_envs(list@));
    }
    out
}

/// The aggregate root: the platform resolution rules, the variable context,
/// and the named environments.  An environment's name is its key; the
/// configuration source is expected to hand each name over once.
#[derive(Debug)]
pub struct Configuration {
    pub system: System,
    pub variables: Context,
    pub environments: Vec<Environment>,
}

impl Configuration {
    /// The environments selected by a filter: the first environment whose
    /// name equals the filter exactly, if any; otherwise every environment
    /// whose name the filter is a prefix of, in ascending name order.  An
    /// empty result and a result of several are the caller's "no match" and
    /// "ambiguous" outcomes.
    pub fn filter_environments(&self, name: &str) -> (r: Vec<&Environment>)
        ensures
            has_exact(self.environments@, name@) ==> r@.len() == 1 && *(r@[0])
                == self.environments@[exact_index(self.environments@, name@)],
            !has_exact(self.environments@, name@) ==> sorted_by_name(deref_envs(r@)) && deref_envs(
                r@,
            ).to_multiset() == prefix_matches(self.environments@, name@).to_multiset(),
    {
        let n = self.environments.len();
        let mut i: usize = 0;
        while i < n
            invariant
                n == self.environments@.len(),
                i <= n,
                forall|j: int| 0 <= j < i ==> (#[trigger] self.environments@[j]).name@ != name@,
            decreases n - i,
        {
            if str_eq(self.environments[i].name.as_str(), name) {
                let mut out: Vec<&Environment> = Vec::new();
                out.push(&self.environments[i]);
                proof {
                    lemma_exact_index(self.environments@, name@);
                    let ei = exact_index(self.environments@, name@);
                    if ei < i {
                        assert(self.environments@[ei].name@ != name@);
                    }
                    if ei > i {
                        assert(self.environments@[i as int].name@ != name@);
                    }
                }
                return out;
            }
            i = i + 1;
        }
        proof {
            lemma_exact_index(self.environments@, name@);
        }
        let mut matches: Vec<&Environment> = Vec::new();
        let mut k: usize = 0;
        proof {
            assert(deref_envs(matches@) =~= prefix_matches(self.environments@.take(0), name@));
        }
        while k < n
            invariant
                n == self.environments@.len(),
                k <= n,
                deref_envs(matches@) == prefix_matches(self.environments@.take(k as int), name@),
            decreases n - k,
        {
            let ghost before = deref_envs(matches@);
            if str_starts_with(self.environments[k].name.as_str(), name) {
                matches.push(&self.environments[k]);
            }
            proof {
                let taken = self.environments@.take(k + 1);
                assert(taken.drop_last() =~= self.environments@.take(k as int));
                assert(taken.last() == self.environments@[k as int]);
                if name@.is_prefix_of(self.environments@[k as int].name@) {
                    assert(deref_envs(matches@) =~= before.push(self.environments@[k as int]));
                } else {
                    assert(deref_envs(matches@) =~= before);
                }
            }
            k = k + 1;
        }
        proof {
            assert(self.environments@.take(n as int) =~= self.environments@);
        }
        sort_by_name(matches)
    }

    /// Every environment, in ascending name order.
    pub fn list_environment_names(&self) -> (r: Vec<&Environment>)
        ensures
            r@.len() == self.environments@.len(),
            sorted_by_name(deref_envs(r@)),
            deref_envs(r@).to_multiset() == self.environments@.to_multiset(),
    {
        let n = self.environments.len();
        let mut all: Vec<&Environment> = Vec::new();
        let mut i: usize = 0;
        while i < n
            invariant
                n == self.environments@.len(),
                i <= n,
                all@.len() == i,
                deref_envs(all@) == self.environments@.take(i as int),
            decreases n - i,
        {
            all.push(&self.environments[i]);
            i = i + 1;
            proof {
                assert(deref_envs(all@) =~= self.environments@.take(i as int));
            }
        }
        proof {
            assert(self.environments@.take(n as int) =~= self.environments@);
        }
        let r = sort_by_name(all);
        proof {
            assert(deref_envs(r@).len() == r@.len());
            assert(deref_envs(r@).to_multiset().len() == deref_envs(r@).len());
            assert(self.environments@.to_multiset().len() == self.environments@.len());
        }
        r
    }
}

impl Resolvable for Configuration {
    open spec fn resolves_to(
        pre: Self,
        post: Self,
        ctx: Map<Seq<char>, Seq<char>>,
        env: Map<Seq<char>, Seq<char>>,
    ) -> bool {
        &&& post.system == pre.system
        &&& post.variables == pre.variables
        &&& <Vec<Environment> as Resolvable>::resolves_to(
            pre.environments,
            post.environments,
            ctx,
            env,
        )
    }

    /// Resolves every environment; the system overrides and the variable
    /// table itself are left as they are.
    fn resolve(&mut self, ctx: &Context, env: &Context) {
        self.environments.resolve(ctx, env);
    }
}

/// No placeholder syntax remains anywhere in the configuration's text.
pub open spec fn configuration_placeholder_free(c: Configuration) -> bool {
    forall|i: int|
        0 <= i < c.environments@.len() ==> environment_placeholder_free(
            #[trigger] c.environments@[i],
        )
}

/// Resolution is idempotent: a configuration with no unresolved
/// placeholders is left exactly as it is by a resolve pass — so a second
/// pass after a resolve that removed every placeholder changes nothing.
pub proof fn lemma_configuration_resolve_noop(
    pre: Configuration,
    post: Configuration,
    ctx: Map<Seq<char>, Seq<char>>,
    env: Map<Seq<char>, Seq<char>>,
)
    requires
        configuration_placeholder_free(pre),
        Configuration::resolves_to(pre, post, ctx, env),
    ensures
        post.system == pre.system,
        post.variables == pre.variables,
        post.environments@.len() == pre.environments@.len(),
        forall|i: int|
            0 <= i < pre.environments@.len() ==> same_environment_text(
                pre.environments@[i],
                #[trigger] post.environments@[i],
            ),
{
    assert forall|i: int| 0 <= i < pre.environments@.len() implies same_environment_text(
        pre.environments@[i],
        #[trigger] post.environments@[i],
    ) by {
        assert(Environment::resolves_to(pre.environments@[i], post.environments@[i], ctx, env));
        lemma_environment_resolve_noop(pre.environments@[i], post.environments@[i], ctx, env);
    }
}

impl Default for Configuration {
    /// The default configuration: a default system, no variables, no
    /// environments.
    fn default() -> (r: Self)
        ensures
            r.system.web_browser_path is None,
            r.system.web_browser_arguments is None,
            r.system.editor_path is None,
            r.system.editor_arguments is None,
            r.system.vscode_path is None,
            !r.system.defaults_to_interactive,
            r.variables@ == Map::<Seq<char>, Seq<char>>::empty(),
            r.environments@.len() == 0,
    {
        Configuration {
            system: Default::default(),
            variables: Context::empty(),
            environments: Vec::new(),
        }
    }
}

} // verus!
