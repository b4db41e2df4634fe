use vstd::prelude::*;
use vstd::string::StringExecFns;

use crate::actions::{
    action_placeholder_free, lemma_action_resolve_noop, same_action_text, Action, ActionContext,
};
use crate::context::Context;
use crate::io::{CommandExecutor, ExecError};
use crate::resolve::{lemma_resolve_noop, placeholder_free, Resolvable};

verus! {

/// A named, described, ordered list of actions: the unit a user selects to
/// boot.  The name is the key of the owning map; booting executes the
/// actions strictly in declaration order.
#[derive(Debug, Clone)]
pub struct Environment {
    pub name: String,
    pub description: String,
    pub actions: Vec<Action>,
}

impl Environment {
    /// Executes the actions in declaration order; the first failure aborts
    /// the rest and is returned.  An environment of message-only actions
    /// always boots, whatever the executor would do.
    pub fn boot<E: CommandExecutor>(&self, context: &ActionContext<'_, E>) -> (r: Result<
        (),
        ExecError,
    >)
        ensures
            (forall|i: int|
                0 <= i < self.actions@.len() ==> (#[trigger] self.actions@[i]) is ShowMessage)
                ==> r is Ok,
    {
        let n = self.actions.len();
        let mut i: usize = 0;
        while i < n
            invariant
                n == self.actions@.len(),
                i <= n,
            decreases n - i,
        {
            match self.actions[i].execute(context) {
                Ok(_) => (),
                Err(e) => {
                    return Err(e);
                },
            }
            i = i + 1;
        }
        Ok(())
    }

    /// The one-line form shown in environment lists: name, colon,
    /// description.
    pub fn display_line(&self) -> (r: String)
        ensures
            r@ == self.name@ + ": "@ + self.description@,
    {
        let mut out = String::new();
        out.append(self.name.as_str());
        out.append(": ");
        out.append(self.description.as_str());
        proof {
            assert(out@ =~= self.name@ + ": "@ + self.description@);
        }
        out
    }
}

impl Resolvable for Environment {
    open spec fn resolves_to(
        pre: Self,
        post: Self,
        ctx: Map<Seq<char>, Seq<char>>,
        env: Map<Seq<char>, Seq<char>>,
    ) -> bool {
        &&& post.name == pre.name
        &&& String::resolves_to(pre.description, post.description, ctx, env)
        &&& <Vec<Action> as Resolvable>::resolves_to(pre.actions, post.actions, ctx, env)
    }

    /// Resolves the description and every action; the name, being the map
    /// key, is left as it is.
    fn resolve(&mut self, ctx: &Context, env: &Context) {
        self.description.resolve(ctx, env);
        self.actions.resolve(ctx, env);
    }
}

/// No placeholder syntax remains anywhere in the environment's text.
pub open spec fn environment_placeholder_free(e: Environment) -> bool {
    &&& placeholder_free(e.description@)
    &&& forall|i: int|
        0 <= i < e.actions@.len() ==> action_placeholder_free(#[trigger] e.actions@[i])
}

/// The two environments carry the same name and the same text everywhere.
pub open spec fn same_environment_text(a: Environment, b: Environment) -> bool {
    &&& b.name == a.name
    &&& b.description@ == a.description@
    &&& b.actions@.len() == a.actions@.len()
    &&& forall|i: int|
        0 <= i < a.actions@.len() ==> same_action_text(a.actions@[i], #[trigger] b.actions@[i])
}

/// Resolving an environment that holds no placeholder syntax leaves its
/// text exactly as it is.
pub proof fn lemma_environment_resolve_noop(
    a: Environment,
    b: Environment,
    ctx: Map<Seq<char>, Seq<char>>,
    env: Map<Seq<char>, Seq<char>>,
)
    requires
        environment_placeholder_free(a),
        Environment::resolves_to(a, b, ctx, env),
    ensures
        same_environment_text(a, b),
{
    lemma_resolve_noop(a.description@, ctx, env);
    assert forall|i: int| 0 <= i < a.actions@.len() implies same_action_text(
        a.actions@[i],
        #[trigger] b.actions@[i],
    ) by {
        assert(Action::resolves_to(a.actions@[i], b.actions@[i], ctx, env));
        lemma_action_resolve_noop(a.actions@[i], b.actions@[i], ctx, env);
    }
}

} // verus!
