use vstd::prelude::*;

use crate::context::Context;
use crate::text::{chars_of, string_from_chars};

verus! {

// ---------------------------------------------------------------------------
// What a placeholder denotes.
// ---------------------------------------------------------------------------

/// The value substituted for a variable name: the context entry if the name
/// is known there, otherwise the process-environment entry, otherwise the
/// empty string (a missing variable is blanked, never left in place).
pub open spec fn lookup(
    ctx: Map<Seq<char>, Seq<char>>,
    env: Map<Seq<char>, Seq<char>>,
    name: Seq<char>,
) -> Seq<char> {
    if ctx.contains_key(name) {
        ctx[name]
    } else if env.contains_key(name) {
        env[name]
    } else {
        Seq::empty()
    }
}

// ---------------------------------------------------------------------------
// The `${NAME}` pass.
// ---------------------------------------------------------------------------

/// Position `j` closes a `${` opener at the start of `s`: it holds the first
/// `}` after the opener, and no line break stands in between.
pub open spec fn brace_close_at(s: Seq<char>, j: int) -> bool {
    &&& s[j] == '}'
    &&& forall|k: int| 2 <= k < j ==> s[k] != '}' && s[k] != '\n'
}

/// A `${NAME}` placeholder stands at the very start of `s`.
pub open spec fn brace_match_at_start(s: Seq<char>) -> bool {
    &&& s.len() >= 2
    &&& s[0] == '$'
    &&& s[1] == '{'
    &&& exists|j: int| 2 <= j < s.len() && brace_close_at(s, j)
}

proof fn lemma_brace_close_unique(s: Seq<char>, j1: int, j2: int)
    requires
        2 <= j1 < s.len(),
        2 <= j2 < s.len(),
        brace_close_at(s, j1),
        brace_close_at(s, j2),
    ensures
        j1 == j2,
{
}

/// One left-to-right pass replacing every `${NAME}` placeholder; the text a
/// replacement brings in is not scanned again.
pub open spec fn subst_braced(
    s: Seq<char>,
    ctx: Map<Seq<char>, Seq<char>>,
    env: Map<Seq<char>, Seq<char>>,
) -> Seq<char>
    decreases s.len(),
{
    if s.len() == 0 {
        Seq::empty()
    } else if brace_match_at_start(s) {
        let j = choose|j: int| 2 <= j < s.len() && brace_close_at(s, j);
        lookup(ctx, env, s.subrange(2, j)) + subst_braced(
            s.subrange(j + 1, s.len() as int),
            ctx,
            env,
        )
    } else {
        seq![s[0]] + subst_braced(s.drop_first(), ctx, env)
    }
}

// ---------------------------------------------------------------------------
// The `%NAME%` pass.
// ---------------------------------------------------------------------------

/// Position `j` closes a `%` opener at the start of `s`: it holds the first
/// further `%`, and no line break stands in between.
pub open spec fn percent_close_at(s: Seq<char>, j: int) -> bool {
    &&& s[j] == '%'
    &&& forall|k: int| 1 <= k < j ==> s[k] != '%' && s[k] != '\n'
}

/// A `%NAME%` placeholder stands at the very start of `s`.
pub open spec fn percent_match_at_start(s: Seq<char>) -> bool {
    &&& s.len() >= 2
    &&& s[0] == '%'
    &&& exists|j: int| 1 <= j < s.len() && percent_close_at(s, j)
}

proof fn lemma_percent_close_unique(s: Seq<char>, j1: int, j2: int)
    requires
        1 <= j1 < s.len(),
        1 <= j2 < s.len(),
        percent_close_at(s, j1),
        percent_close_at(s, j2),
    ensures
        j1 == j2,
{
}

/// One left-to-right pass replacing every `%NAME%` placeholder.
pub open spec fn subst_percent(
    s: Seq<char>,
    ctx: Map<Seq<char>, Seq<char>>,
    env: Map<Seq<char>, Seq<char>>,
) -> Seq<char>
    decreases s.len(),
{
    if s.len() == 0 {
        Seq::empty()
    } else if percent_match_at_start(s) {
        let j = choose|j: int| 1 <= j < s.len() && percent_close_at(s, j);
        lookup(ctx, env, s.subrange(1, j)) + subst_percent(
            s.subrange(j + 1, s.len() as int),
            ctx,
            env,
        )
    } else {
        seq![s[0]] + subst_percent(s.drop_first(), ctx, env)
    }
}

/// Full resolution of one string: the `${NAME}` pass first, then the `%NAME%`
/// pass over its result.
pub open spec fn resolve_seq(
    s: Seq<char>,
    ctx: Map<Seq<char>, Seq<char>>,
    env: Map<Seq<char>, Seq<char>>,
) -> Seq<char> {
    subst_percent(subst_braced(s, ctx, env), ctx, env)
}

// ---------------------------------------------------------------------------
// Executable scanners.
// ---------------------------------------------------------------------------

fn push_all(out: &mut Vec<char>, add: &Vec<char>)
    ensures
        final(out)@ == old(out)@ + add@,
{
    let mut i: usize = 0;
    while i < add.len()
        invariant
            i <= add@.len(),
            out@ == old(out)@ + add@.take(i as int),
        decreases add@.len() - i,
    {
        out.push(add[i]);
        i = i + 1;
        proof {
            assert(out@ =~= old(out)@ + add@.take(i as int));
        }
    }
    proof {
        assert(out@ =~= old(out)@ + add@);
    }
}

/// Looks the name up, context first, then process environment, and returns
/// the substituted value as characters.
fn lookup_exec(name: &Vec<char>, ctx: &Context, env: &Context) -> (r: Vec<char>)
    ensures
        r@ == lookup(ctx@, env@, name@),
{
    let name_s = string_from_chars(name);
    match ctx.get(name_s.as_str()) {
        Some(value) => chars_of(value.as_str()),
        None => match env.get(name_s.as_str()) {
            Some(value) => chars_of(value.as_str()),
            None => Vec::new(),
        },
    }
}

/// Scans for the `}` closing a `${` opener at position `i`: the first `}`
/// strictly after `i + 1`, provided no line break comes first.
fn find_brace_close(v: &Vec<char>, i: usize) -> (r: Option<usize>)
    requires
        i + 2 <= v@.len(),
    ensures
        match r {
            Some(k) => i + 2 <= k < v@.len() && brace_close_at(v@.skip(i as int), k - i),
            None => forall|j: int|
                2 <= j < v@.len() - i ==> !brace_close_at(v@.skip(i as int), j),
        },
{
    let n = v.len();
    let mut k: usize = i + 2;
    while k < n
        invariant
            n == v@.len(),
            i + 2 <= k <= v@.len(),
            forall|t: int| i + 2 <= t < k ==> v@[t] != '}' && v@[t] != '\n',
        decreases v@.len() - k,
    {
        if v[k] == '}' {
            return Some(k);
        }
        if v[k] == '\n' {
            proof {
                let s = v@.skip(i as int);
                assert forall|j: int| 2 <= j < v@.len() - i implies !brace_close_at(s, j) by {
                    if j < k - i {
                        assert(s[j] == v@[i + j]);
                    } else if j == k - i {
                        assert(s[j] == '\n');
                    } else {
                        assert(s[k - i] == '\n');
                    }
                }
            }
            return None;
        }
        k = k + 1;
    }
    proof {
        let s = v@.skip(i as int);
        assert forall|j: int| 2 <= j < v@.len() - i implies !brace_close_at(s, j) by {
            assert(s[j] == v@[i + j]);
        }
    }
    None
}

/// Scans for the `%` closing a `%` opener at position `i`.
fn find_percent_close(v: &Vec<char>, i: usize) -> (r: Option<usize>)
    requires
        i + 1 <= v@.len(),
    ensures
        match r {
            Some(k) => i + 1 <= k < v@.len() && percent_close_at(v@.skip(i as int), k - i),
            None => forall|j: int|
                1 <= j < v@.len() - i ==> !percent_close_at(v@.skip(i as int), j),
        },
{
    let n = v.len();
    let mut k: usize = i + 1;
    while k < n
        invariant
            n == v@.len(),
            i + 1 <= k <= v@.len(),
            forall|t: int| i + 1 <= t < k ==> v@[t] != '%' && v@[t] != '\n',
        decreases v@.len() - k,
    {
        if v[k] == '%' {
            return Some(k);
        }
        if v[k] == '\n' {
            proof {
                let s = v@.skip(i as int);
                assert forall|j: int| 1 <= j < v@.len() - i implies !percent_close_at(s, j) by {
                    if j < k - i {
                        assert(s[j] == v@[i + j]);
                    } else if j == k - i {
                        assert(s[j] == '\n');
                    } else {
                        assert(s[k - i] == '\n');
                    }
                }
            }
            return None;
        }
        k = k + 1;
    }
    proof {
        let s = v@.skip(i as int);
        assert forall|j: int| 1 <= j < v@.len() - i implies !percent_close_at(s, j) by {
            assert(s[j] == v@[i + j]);
        }
    }
    None
}

/// The executable `${NAME}` pass.
fn subst_braced_exec(v: &Vec<char>, ctx: &Context, env: &Context) -> (r: Vec<char>)
    ensures
        r@ == subst_braced(v@, ctx@, env@),
{
    let ghost full = subst_braced(v@, ctx@, env@);
    let mut out: Vec<char> = Vec::new();
    let mut i: usize = 0;
    proof {
        assert(v@.skip(0) =~= v@);
        assert(out@ + subst_braced(v@.skip(0), ctx@, env@) =~= full);
    }
    while i < v.len()
        invariant
            i <= v@.len(),
            full == subst_braced(v@, ctx@, env@),
            out@ + subst_braced(v@.skip(i as int), ctx@, env@) == full,
        decreases v@.len() - i,
    {
        let ghost s = v@.skip(i as int);
        let mut matched: Option<usize> = None;
        if v[i] == '$' && i + 1 < v.len() && v[i + 1] == '{' {
            matched = find_brace_close(v, i);
        }
        match matched {
            Some(k) => {
                proof {
                    assert(s[0] == '$' && s[1] == '{');
                    assert(brace_match_at_start(s));
                    let jc = choose|j: int| 2 <= j < s.len() && brace_close_at(s, j);
                    lemma_brace_close_unique(s, jc, k - i);
                }
                let mut name: Vec<char> = Vec::new();
                let mut t: usize = i + 2;
                while t < k
                    invariant
                        i + 2 <= t <= k,
                        k < v@.len(),
                        name@ == v@.subrange(i + 2, t as int),
                    decreases k - t,
                {
                    name.push(v[t]);
                    t = t + 1;
                    proof {
                        assert(name@ =~= v@.subrange(i + 2, t as int));
                    }
                }
                proof {
                    assert(name@ =~= s.subrange(2, k - i));
                }
                let value = lookup_exec(&name, ctx, env);
                push_all(&mut out, &value);
                proof {
                    assert(s.subrange(k - i + 1, s.len() as int) =~= v@.skip(k + 1));
                    assert(out@ + subst_braced(v@.skip(k + 1), ctx@, env@) =~= full);
                }
                i = k + 1;
            },
            None => {
                proof {
                    assert(!brace_match_at_start(s));
                    assert(s.drop_first() =~= v@.skip(i + 1));
                    assert(seq![s[0]] + subst_braced(s.drop_first(), ctx@, env@) == subst_braced(
                        s,
                        ctx@,
                        env@,
                    ));
                }
                out.push(v[i]);
                proof {
                    assert(out@ + subst_braced(v@.skip(i + 1), ctx@, env@) =~= full);
                }
                i = i + 1;
            },
        }
    }
    proof {
        assert(v@.skip(i as int) =~= Seq::<char>::empty());
        assert(out@ =~= full);
    }
    out
}

/// The executable `%NAME%` pass.
fn subst_percent_exec(v: &Vec<char>, ctx: &Context, env: &Context) -> (r: Vec<char>)
    ensures
        r@ == subst_percent(v@, ctx@, env@),
{
    let ghost full = subst_percent(v@, ctx@, env@);
    let mut out: Vec<char> = Vec::new();
    let mut i: usize = 0;
    proof {
        assert(v@.skip(0) =~= v@);
        assert(out@ + subst_percent(v@.skip(0), ctx@, env@) =~= full);
    }
    while i < v.len()
        invariant
            i <= v@.len(),
            full == subst_percent(v@, ctx@, env@),
            out@ + subst_percent(v@.skip(i as int), ctx@, env@) == full,
        decreases v@.len() - i,
    {
        let ghost s = v@.skip(i as int);
        let mut matched: Option<usize> = None;
        if v[i] == '%' && i + 1 < v.len() {
            matched = find_percent_close(v, i);
        }
        match matched {
            Some(k) => {
                proof {
                    assert(s[0] == '%');
                    assert(percent_match_at_start(s));
                    let jc = choose|j: int| 1 <= j < s.len() && percent_close_at(s, j);
                    lemma_percent_close_unique(s, jc, k - i);
                }
                let mut name: Vec<char> = Vec::new();
                let mut t: usize = i + 1;
                while t < k
                    invariant
                        i + 1 <= t <= k,
                        k < v@.len(),
                        name@ == v@.subrange(i + 1, t as int),
                    decreases k - t,
                {
                    name.push(v[t]);
                    t = t + 1;
                    proof {
                        assert(name@ =~= v@.subrange(i + 1, t as int));
                    }
                }
                proof {
                    assert(name@ =~= s.subrange(1, k - i));
                }
                let value = lookup_exec(&name, ctx, env);
                push_all(&mut out, &value);
                proof {
                    assert(s.subrange(k - i + 1, s.len() as int) =~= v@.skip(k + 1));
                    assert(out@ + subst_percent(v@.skip(k + 1), ctx@, env@) =~= full);
                }
                i = k + 1;
            },
            None => {
                proof {
                    assert(!percent_match_at_start(s));
                    assert(s.drop_first() =~= v@.skip(i + 1));
                    assert(seq![s[0]] + subst_percent(s.drop_first(), ctx@, env@) == subst_percent(
                        s,
                        ctx@,
                        env@,
                    ));
                }
                out.push(v[i]);
                proof {
                    assert(out@ + subst_percent(v@.skip(i + 1), ctx@, env@) =~= full);
                }
                i = i + 1;
            },
        }
    }
    proof {
        assert(v@.skip(i as int) =~= Seq::<char>::empty());
        assert(out@ =~= full);
    }
    out
}

// ---------------------------------------------------------------------------
// The resolution capability.
// ---------------------------------------------------------------------------

/// A value whose textual content can have variable placeholders substituted
/// in place against a context and a snapshot of the process environment.
pub trait Resolvable: Sized {
    /// Relates the value before a resolve pass to the value after it.
    spec fn resolves_to(
        pre: Self,
        post: Self,
        ctx: Map<Seq<char>, Seq<char>>,
        env: Map<Seq<char>, Seq<char>>,
    ) -> bool;

    /// Substitutes every placeholder in place.
    fn resolve(&mut self, ctx: &Context, env: &Context)
        ensures
            Self::resolves_to(*old(self), *final(self), ctx@, env@),
    ;
}

/// A value from which a resolved copy can be taken, leaving the original.
pub trait ResolvableClone: Resolvable {
    /// Returns a resolved copy.
    fn resolved(&self, ctx: &Context, env: &Context) -> (r: Self)
        ensures
            Self::resolves_to(*self, r, ctx@, env@),
    ;
}

impl Resolvable for String {
    open spec fn resolves_to(
        pre: Self,
        post: Self,
        ctx: Map<Seq<char>, Seq<char>>,
        env: Map<Seq<char>, Seq<char>>,
    ) -> bool {
        post@ == resolve_seq(pre@, ctx, env)
    }

    fn resolve(&mut self, ctx: &Context, env: &Context) {
        let v = chars_of(self.as_str());
        let braced = subst_braced_exec(&v, ctx, env);
        let done = subst_percent_exec(&braced, ctx, env);
        *self = string_from_chars(&done);
    }
}

impl ResolvableClone for String {
    fn resolved(&self, ctx: &Context, env: &Context) -> (r: Self) {
        let mut copy = self.clone();
        copy.resolve(ctx, env);
        copy
    }
}

impl<T: Resolvable> Resolvable for Option<T> {
    open spec fn resolves_to(
        pre: Self,
        post: Self,
        ctx: Map<Seq<char>, Seq<char>>,
        env: Map<Seq<char>, Seq<char>>,
    ) -> bool {
        match pre {
            Some(a) => post matches Some(b) && T::resolves_to(a, b, ctx, env),
            None => post is None,
        }
    }

    fn resolve(&mut self, ctx: &Context, env: &Context) {
        match self {
            Some(value) => value.resolve(ctx, env),
            None => (),
        }
    }
}

impl<T: Resolvable> Resolvable for Vec<T> {
    open spec fn resolves_to(
        pre: Self,
        post: Self,
        ctx: Map<Seq<char>, Seq<char>>,
        env: Map<Seq<char>, Seq<char>>,
    ) -> bool {
        &&& post@.len() == pre@.len()
        &&& forall|i: int|
            0 <= i < pre@.len() ==> T::resolves_to(pre@[i], #[trigger] post@[i], ctx, env)
    }

    fn resolve(&mut self, ctx: &Context, env: &Context) {
        let n = self.len();
        let mut i: usize = 0;
        while i < n
            invariant
                n == old(self)@.len(),
                self@.len() == n,
                i <= n,
                forall|j: int|
                    0 <= j < i ==> T::resolves_to(old(self)@[j], #[trigger] self@[j], ctx@, env@),
                forall|j: int| i <= j < n ==> self@[j] == old(self)@[j],
            decreases n - i,
        {
            let mut element = self.remove(i);
            element.resolve(ctx, env);
            self.insert(i, element);
            i = i + 1;
        }
    }
}

// ---------------------------------------------------------------------------
// Laws of resolution.
// ---------------------------------------------------------------------------

/// No `${NAME}` placeholder starts anywhere in `s`.
pub open spec fn brace_free(s: Seq<char>) -> bool
    decreases s.len(),
{
    s.len() == 0 || (!brace_match_at_start(s) && brace_free(s.drop_first()))
}

/// No `%NAME%` placeholder starts anywhere in `s`.
pub open spec fn percent_free(s: Seq<char>) -> bool
    decreases s.len(),
{
    s.len() == 0 || (!percent_match_at_start(s) && percent_free(s.drop_first()))
}

/// No placeholder of either form starts anywhere in `s`.
pub open spec fn placeholder_free(s: Seq<char>) -> bool {
    brace_free(s) && percent_free(s)
}

proof fn lemma_subst_braced_noop(
    s: Seq<char>,
    ctx: Map<Seq<char>, Seq<char>>,
    env: Map<Seq<char>, Seq<char>>,
)
    requires
        brace_free(s),
    ensures
        subst_braced(s, ctx, env) == s,
    decreases s.len(),
{
    if s.len() == 0 {
        assert(subst_braced(s, ctx, env) =~= s);
    } else {
        lemma_subst_braced_noop(s.drop_first(), ctx, env);
        assert(subst_braced(s, ctx, env) =~= s);
    }
}

proof fn lemma_subst_percent_noop(
    s: Seq<char>,
    ctx: Map<Seq<char>, Seq<char>>,
    env: Map<Seq<char>, Seq<char>>,
)
    requires
        percent_free(s),
    ensures
        subst_percent(s, ctx, env) == s,
    decreases s.len(),
{
    if s.len() == 0 {
        assert(subst_percent(s, ctx, env) =~= s);
    } else {
        lemma_subst_percent_noop(s.drop_first(), ctx, env);
        assert(subst_percent(s, ctx, env) =~= s);
    }
}

/// Once no placeholder syntax remains in a string, a resolve pass leaves it
/// exactly as it is.
pub proof fn lemma_resolve_noop(
    s: Seq<char>,
    ctx: Map<Seq<char>, Seq<char>>,
    env: Map<Seq<char>, Seq<char>>,
)
    requires
        placeholder_free(s),
    ensures
        resolve_seq(s, ctx, env) == s,
{
    lemma_subst_braced_noop(s, ctx, env);
    lemma_subst_percent_noop(s, ctx, env);
}

/// Resolution is idempotent on placeholder-free text: resolving a string that
/// holds no placeholder syntax, once or twice, changes nothing.
pub proof fn lemma_resolve_idempotent(
    s: Seq<char>,
    ctx: Map<Seq<char>, Seq<char>>,
    env: Map<Seq<char>, Seq<char>>,
)
    requires
        placeholder_free(s),
    ensures
        resolve_seq(resolve_seq(s, ctx, env), ctx, env) == resolve_seq(s, ctx, env),
{
    lemma_resolve_noop(s, ctx, env);
}

/// A name known to the context is substituted from the context, whatever the
/// process environment holds: the context always wins.
pub proof fn lemma_context_wins(
    ctx: Map<Seq<char>, Seq<char>>,
    env: Map<Seq<char>, Seq<char>>,
    name: Seq<char>,
)
    requires
        ctx.contains_key(name),
    ensures
        lookup(ctx, env, name) == ctx[name],
{
}

} // verus!
