use vstd::prelude::*;
use vstd::string::StringExecFns;

use crate::context::Context;
use crate::intent::{CommandCreationType, CommandIntent, IntentView};
use crate::io::{emit_line, CommandExecutor, ExecError};
use crate::resolve::{lemma_resolve_noop, placeholder_free, Resolvable};
use crate::system::{args_then_target, vscode_arguments, vscode_executable_spec, System};
use crate::text::clone_strings;

verus! {

/// Launch a program: a target (path or bare command name), optional
/// arguments, an optional working directory, and a creation mode.
#[derive(Debug, Clone)]
pub struct ActionRun {
    pub target: String,
    pub args: Option<Vec<String>>,
    pub working_directory: Option<String>,
    pub creation_type: CommandCreationType,
}

/// Print a literal message on standard output.
#[derive(Debug, Clone)]
pub struct ActionShowMessage {
    pub message: String,
}

/// Open a URL in the web browser.
#[derive(Debug, Clone)]
pub struct ActionOpenUrl {
    pub target: String,
}

/// Open a file or folder with the operating system's default handler.
#[derive(Debug, Clone)]
pub struct ActionOpenFile {
    pub target: String,
}

/// Open a target in the IDE.
#[derive(Debug, Clone)]
pub struct ActionVSCode {
    pub target: String,
}

/// One declarative operation inside an environment.  The tag fully
/// determines which fields are meaningful; there are no cross-variant
/// fields.
#[derive(Debug, Clone)]
pub enum Action {
    Run(ActionRun),
    OpenFile(ActionOpenFile),
    ShowMessage(ActionShowMessage),
    OpenUrl(ActionOpenUrl),
    VSCode(ActionVSCode),
}

/// Everything an action needs at execution time: the platform resolution
/// rules, the variable context, a snapshot of the process environment, and
/// the executor capability.
pub struct ActionContext<'a, E: CommandExecutor> {
    pub system: &'a System,
    pub context: &'a Context,
    pub environ: &'a Context,
    pub executor: &'a E,
}

/// The zero-or-one command intent an action translates into: `Run` builds a
/// custom intent straight from its own fields; the open-style actions go
/// through the system's resolution rules; showing a message needs no
/// process at all.
pub open spec fn action_intent(
    action: Action,
    sys: System,
    env: Map<Seq<char>, Seq<char>>,
) -> Option<IntentView> {
    match action {
        Action::Run(run) => Some(
            IntentView::Custom {
                target: run.target@,
                arguments: match run.args {
                    Some(list) => list.deep_view(),
                    None => Seq::empty(),
                },
                working_directory: match run.working_directory {
                    Some(w) => Some(w@),
                    None => None,
                },
                creation_type: run.creation_type,
            },
        ),
        Action::OpenFile(a) => Some(
            IntentView::System { target: a.target@, creation_type: CommandCreationType::Detach },
        ),
        Action::ShowMessage(_) => None,
        Action::OpenUrl(a) => Some(
            match sys.web_browser_path {
                Some(path) => IntentView::Custom {
                    target: path@,
                    arguments: args_then_target(sys.web_browser_arguments, a.target@),
                    working_directory: None,
                    creation_type: CommandCreationType::Detach,
                },
                None => IntentView::System {
                    target: a.target@,
                    creation_type: CommandCreationType::Detach,
                },
            },
        ),
        Action::VSCode(a) => Some(
            IntentView::Custom {
                target: vscode_executable_spec(sys, env),
                arguments: vscode_arguments(a.target@),
                working_directory: None,
                creation_type: CommandCreationType::Detach,
            },
        ),
    }
}

impl Action {
    /// Translates the action into its command intent, or `None` for the one
    /// action that runs no process.
    pub fn intent_of(&self, system: &System, environ: &Context) -> (r: Option<CommandIntent>)
        ensures
            r.deep_view() == action_intent(*self, *system, environ@),
            r is Some <==> !(*self is ShowMessage),
    {
        match self {
            Action::Run(run) => {
                let arguments: Vec<String> = match &run.args {
                    Some(list) => clone_strings(list),
                    None => Vec::new(),
                };
                let working_directory: Option<String> = match &run.working_directory {
                    Some(w) => Some(w.clone()),
                    None => None,
                };
                proof {
                    if run.args is None {
                        assert(arguments.deep_view() =~= Seq::<Seq<char>>::empty());
                    }
                }
                Some(
                    CommandIntent::Custom {
                        target: run.target.clone(),
                        arguments,
                        working_directory,
                        creation_type: run.creation_type,
                    },
                )
            },
            Action::OpenFile(a) => Some(system.open_file(&a.target)),
            Action::ShowMessage(_) => None,
            Action::OpenUrl(a) => Some(system.open_web_browser(&a.target)),
            Action::VSCode(a) => Some(system.open_vscode(&a.target, environ)),
        }
    }

    /// Carries the action out: prints the message itself, or hands the
    /// built intent to the executor.  Showing a message always succeeds,
    /// whatever the executor would do.
    pub fn execute<E: CommandExecutor>(&self, ctx: &ActionContext<'_, E>) -> (r: Result<
        (),
        ExecError,
    >)
        ensures
            *self is ShowMessage ==> r is Ok,
    {
        match self {
            Action::ShowMessage(action) => {
                emit_line(&action.message);
                Ok(())
            },
            _ => match self.intent_of(ctx.system, ctx.environ) {
                Some(intent) => ctx.executor.execute(intent),
                None => Ok(()),
            },
        }
    }
}

impl Resolvable for Action {
    open spec fn resolves_to(
        pre: Self,
        post: Self,
        ctx: Map<Seq<char>, Seq<char>>,
        env: Map<Seq<char>, Seq<char>>,
    ) -> bool {
        match pre {
            Action::Run(a) => {
                &&& post matches Action::Run(b)
                &&& String::resolves_to(a.target, b.target, ctx, env)
                &&& <Option<Vec<String>> as Resolvable>::resolves_to(a.args, b.args, ctx, env)
                &&& <Option<String> as Resolvable>::resolves_to(
                    a.working_directory,
                    b.working_directory,
                    ctx,
                    env,
                )
                &&& b.creation_type == a.creation_type
            },
            Action::OpenFile(a) => post matches Action::OpenFile(b) && String::resolves_to(
                a.target,
                b.target,
                ctx,
                env,
            ),
            Action::ShowMessage(a) => post matches Action::ShowMessage(b) && String::resolves_to(
                a.message,
                b.message,
                ctx,
                env,
            ),
            Action::OpenUrl(a) => post matches Action::OpenUrl(b) && String::resolves_to(
                a.target,
                b.target,
                ctx,
                env,
            ),
            Action::VSCode(a) => post matches Action::VSCode(b) && String::resolves_to(
                a.target,
                b.target,
                ctx,
                env,
            ),
        }
    }

    fn resolve(&mut self, ctx: &Context, env: &Context) {
        match self {
            Action::Run(run) => {
                run.target.resolve(ctx, env);
                run.args.resolve(ctx, env);
                run.working_directory.resolve(ctx, env);
            },
            Action::OpenFile(a) => a.target.resolve(ctx, env),
            Action::ShowMessage(a) => a.message.resolve(ctx, env),
            Action::OpenUrl(a) => a.target.resolve(ctx, env),
            Action::VSCode(a) => a.target.resolve(ctx, env),
        }
    }
}

// ---------------------------------------------------------------------------
// Resolution laws.
// ---------------------------------------------------------------------------

/// No placeholder syntax remains anywhere in the action's text.
pub open spec fn action_placeholder_free(a: Action) -> bool {
    match a {
        Action::Run(run) => {
            &&& placeholder_free(run.target@)
            &&& (run.args matches Some(list) ==> forall|i: int|
                0 <= i < list@.len() ==> placeholder_free((#[trigger] list@[i])@))
            &&& (run.working_directory matches Some(w) ==> placeholder_free(w@))
        },
        Action::OpenFile(a) => placeholder_free(a.target@),
        Action::ShowMessage(a) => placeholder_free(a.message@),
        Action::OpenUrl(a) => placeholder_free(a.target@),
        Action::VSCode(a) => placeholder_free(a.target@),
    }
}

/// The two actions are of the same kind and carry the same text in every
/// field.
pub open spec fn same_action_text(a: Action, b: Action) -> bool {
    match a {
        Action::Run(x) => {
            &&& b matches Action::Run(y)
            &&& y.target@ == x.target@
            &&& y.creation_type == x.creation_type
            &&& match (x.args, y.args) {
                (None, None) => true,
                (Some(xa), Some(ya)) => ya.deep_view() == xa.deep_view(),
                _ => false,
            }
            &&& match (x.working_directory, y.working_directory) {
                (None, None) => true,
                (Some(xw), Some(yw)) => yw@ == xw@,
                _ => false,
            }
        },
        Action::OpenFile(x) => b matches Action::OpenFile(y) && y.target@ == x.target@,
        Action::ShowMessage(x) => b matches Action::ShowMessage(y) && y.message@ == x.message@,
        Action::OpenUrl(x) => b matches Action::OpenUrl(y) && y.target@ == x.target@,
        Action::VSCode(x) => b matches Action::VSCode(y) && y.target@ == x.target@,
    }
}

/// Resolving an action that holds no placeholder syntax leaves its text
/// exactly as it is.
pub proof fn lemma_action_resolve_noop(
    a: Action,
    b: Action,
    ctx: Map<Seq<char>, Seq<char>>,
    env: Map<Seq<char>, Seq<char>>,
)
    requires
        action_placeholder_free(a),
        Action::resolves_to(a, b, ctx, env),
    ensures
        same_action_text(a, b),
{
    match a {
        Action::Run(x) => {
            let y = b->Run_0;
            lemma_resolve_noop(x.target@, ctx, env);
            if x.args is Some {
                let xa = x.args->0;
                let ya = y.args->0;
                assert forall|i: int| 0 <= i < xa@.len() implies ya.deep_view()[i]
                    == xa.deep_view()[i] by {
                    assert(String::resolves_to(xa@[i], ya@[i], ctx, env));
                    lemma_resolve_noop(xa@[i]@, ctx, env);
                }
                assert(ya.deep_view() =~= xa.deep_view());
            }
            if x.working_directory is Some {
                lemma_resolve_noop(x.working_directory->0@, ctx, env);
            }
        },
        Action::OpenFile(x) => lemma_resolve_noop(x.target@, ctx, env),
        Action::ShowMessage(x) => lemma_resolve_noop(x.message@, ctx, env),
        Action::OpenUrl(x) => lemma_resolve_noop(x.target@, ctx, env),
        Action::VSCode(x) => lemma_resolve_noop(x.target@, ctx, env),
    }
}

// ---------------------------------------------------------------------------
// Human-readable description.
// ---------------------------------------------------------------------------

/// A piece of text wrapped in double quotes.
pub open spec fn quoted(s: Seq<char>) -> Seq<char> {
    "\""@ + s + "\""@
}

/// Each item quoted, the items separated by a comma and a space.
pub open spec fn quoted_join(items: Seq<Seq<char>>) -> Seq<char>
    decreases items.len(),
{
    if items.len() == 0 {
        Seq::empty()
    } else if items.len() == 1 {
        quoted(items[0])
    } else {
        quoted(items[0]) + ", "@ + quoted_join(items.drop_first())
    }
}

proof fn lemma_quoted_join_push(items: Seq<Seq<char>>, x: Seq<char>)
    ensures
        items.len() == 0 ==> quoted_join(items.push(x)) == quoted(x),
        items.len() > 0 ==> quoted_join(items.push(x)) == quoted_join(items) + ", "@ + quoted(x),
    decreases items.len(),
{
    if items.len() == 0 {
        assert(items.push(x)[0] == x);
    } else {
        lemma_quoted_join_push(items.drop_first(), x);
        assert(items.push(x).drop_first() =~= items.drop_first().push(x));
        if items.len() == 1 {
            assert(quoted_join(items.push(x)) =~= quoted_join(items) + ", "@ + quoted(x));
        } else {
            assert(quoted_join(items.push(x)) =~= quoted_join(items) + ", "@ + quoted(x));
        }
    }
}

/// The name of a creation mode, as shown to the user.
pub open spec fn creation_name(ct: CommandCreationType) -> Seq<char> {
    match ct {
        CommandCreationType::Wait => "Wait"@,
        CommandCreationType::Detach => "Detach"@,
        CommandCreationType::DetachWithOutput => "DetachWithOutput"@,
    }
}

/// The one-line (for `Run`, one line ended by a break) description of an
/// action, exactly as `to_pretty_string` renders it.
pub open spec fn pretty_text(action: Action) -> Seq<char> {
    match action {
        Action::Run(run) => "Run application "@ + quoted(run.target@) + (match run.args {
            Some(list) => " with args ["@ + quoted_join(list.deep_view()) + "]"@,
            None => Seq::empty(),
        }) + (match run.working_directory {
            Some(wd) => " with working directory "@ + quoted(wd@),
            None => Seq::empty(),
        }) + " using creation type \""@ + creation_name(run.creation_type) + "\"\n"@,
        Action::OpenFile(a) => "Open file or folder "@ + quoted(a.target@),
        Action::OpenUrl(a) => "Open URL "@ + quoted(a.target@),
        Action::ShowMessage(a) => "Show message "@ + quoted(a.message@),
        Action::VSCode(a) => "Open VSCode on target "@ + quoted(a.target@),
    }
}

/// Appends a double-quoted copy of `s` to `out`.
fn push_quoted(out: &mut String, s: &String)
    ensures
        final(out)@ == old(out)@ + quoted(s@),
{
    out.append("\"");
    out.append(s.as_str());
    out.append("\"");
    proof {
        assert(out@ =~= old(out)@ + quoted(s@));
    }
}

impl Action {
    /// Renders the action for display in a list of actions.
    pub fn to_pretty_string(&self) -> (r: String)
        ensures
            r@ == pretty_text(*self),
    {
        let mut out = String::new();
        match self {
            Action::Run(run) => {
                out.append("Run application ");
                push_quoted(&mut out, &run.target);
                match &run.args {
                    Some(list) => {
                        out.append(" with args [");
                        let ghost before = out@;
                        let mut i: usize = 0;
                        while i < list.len()
                            invariant
                                i <= list@.len(),
                                out@ == before + quoted_join(list.deep_view().take(i as int)),
                            decreases list@.len() - i,
                        {
                            if i > 0 {
                                out.append(", ");
                            }
                            push_quoted(&mut out, &list[i]);
                            proof {
                                let items = list.deep_view().take(i as int);
                                lemma_quoted_join_push(items, list@[i as int]@);
                                assert(list.deep_view().take(i + 1) =~= items.push(
                                    list@[i as int]@,
                                ));
                                assert(out@ =~= before + quoted_join(
                                    list.deep_view().take(i + 1),
                                ));
                            }
                            i = i + 1;
                        }
                        proof {
                            assert(list.deep_view().take(list@.len() as int) =~= list.deep_view());
                        }
                        out.append("]");
                    },
                    None => (),
                }
                match &run.working_directory {
                    Some(wd) => {
                        out.append(" with working directory ");
                        push_quoted(&mut out, wd);
                    },
                    None => (),
                }
                out.append(" using creation type \"");
                match run.creation_type {
                    CommandCreationType::Wait => out.append("Wait"),
                    CommandCreationType::Detach => out.append("Detach"),
                    CommandCreationType::DetachWithOutput => out.append("DetachWithOutput"),
                }
                out.append("\"\n");
                proof {
                    assert(out@ =~= pretty_text(*self));
                }
            },
            Action::OpenFile(a) => {
                out.append("Open file or folder ");
                push_quoted(&mut out, &a.target);
                proof {
                    assert(out@ =~= pretty_text(*self));
                }
            },
            Action::OpenUrl(a) => {
                out.append("Open URL ");
                push_quoted(&mut out, &a.target);
                proof {
                    assert(out@ =~= pretty_text(*self));
                }
            },
            Action::ShowMessage(a) => {
                out.append("Show message ");
                push_quoted(&mut out, &a.message);
                proof {
                    assert(out@ =~= pretty_text(*self));
                }
            },
            Action::VSCode(a) => {
                out.append("Open VSCode on target ");
                push_quoted(&mut out, &a.target);
                proof {
                    assert(out@ =~= pretty_text(*self));
                }
            },
        }
        out
    }
}

} // verus!
