use qx::context::Context;
use qx::resolve::{Resolvable, ResolvableClone};

fn ctx_of(pairs: &[(&str, &str)]) -> Context {
    let mut entries: Vec<(String, String)> = Vec::new();
    for (k, v) in pairs {
        entries.push((k.to_string(), v.to_string()));
    }
    Context::new(entries)
}

fn resolve_str(s: &str, ctx: &Context, env: &Context) -> String {
    let mut out = s.to_string();
    out.resolve(ctx, env);
    out
}

#[test]
fn substitutes_both_placeholder_forms() {
    let ctx = ctx_of(&[("A", "x")]);
    let env = ctx_of(&[("B", "y")]);
    assert_eq!(resolve_str("${A}-%B%", &ctx, &env), "x-y");
}

#[test]
fn context_wins_over_process_environment() {
    let ctx = ctx_of(&[("NAME", "from-context")]);
    let env = ctx_of(&[("NAME", "from-env")]);
    assert_eq!(resolve_str("${NAME}", &ctx, &env), "from-context");
    assert_eq!(resolve_str("%NAME%", &ctx, &env), "from-context");
}

#[test]
fn environment_used_when_context_misses() {
    let ctx = ctx_of(&[]);
    let env = ctx_of(&[("HOME_DIR", "/home/someone")]);
    assert_eq!(resolve_str("${HOME_DIR}/bin", &ctx, &env), "/home/someone/bin");
}

#[test]
fn missing_variable_becomes_empty() {
    let ctx = ctx_of(&[]);
    let env = ctx_of(&[]);
    assert_eq!(resolve_str("a${NOPE}b", &ctx, &env), "ab");
    assert_eq!(resolve_str("a%NOPE%b", &ctx, &env), "ab");
}

#[test]
fn adjacent_placeholders_both_substituted() {
    let ctx = ctx_of(&[("A", "1"), ("B", "2")]);
    let env = ctx_of(&[]);
    assert_eq!(resolve_str("${A}${B}", &ctx, &env), "12");
}

#[test]
fn no_partial_application() {
    // With one name known and one unknown, both placeholders are handled:
    // the known one substituted, the unknown one blanked, never left behind.
    let ctx = ctx_of(&[("A", "1")]);
    let env = ctx_of(&[]);
    assert_eq!(resolve_str("${A}${B}", &ctx, &env), "1");
}

#[test]
fn unterminated_placeholder_left_alone() {
    let ctx = ctx_of(&[("A", "1")]);
    let env = ctx_of(&[]);
    assert_eq!(resolve_str("${A", &ctx, &env), "${A");
    assert_eq!(resolve_str("%A", &ctx, &env), "%A");
}

#[test]
fn line_break_stops_a_placeholder() {
    let ctx = ctx_of(&[("A\nB", "no"), ("A", "no")]);
    let env = ctx_of(&[]);
    assert_eq!(resolve_str("${A\nB}", &ctx, &env), "${A\nB}");
}

#[test]
fn empty_percent_name_is_blanked() {
    let ctx = ctx_of(&[]);
    let env = ctx_of(&[]);
    assert_eq!(resolve_str("a%%b", &ctx, &env), "ab");
}

#[test]
fn dollar_pass_runs_before_percent_pass() {
    // The braced pass substitutes a value that itself holds a percent
    // placeholder; the later percent pass then substitutes it in turn.
    let ctx = ctx_of(&[("A", "%B%")]);
    let env = ctx_of(&[("B", "y")]);
    assert_eq!(resolve_str("${A}", &ctx, &env), "y");
}

#[test]
fn resolve_is_idempotent_without_placeholders() {
    let ctx = ctx_of(&[("A", "x")]);
    let env = ctx_of(&[]);
    let once = resolve_str("plain text, no placeholders", &ctx, &env);
    let twice = resolve_str(&once, &ctx, &env);
    assert_eq!(once, "plain text, no placeholders");
    assert_eq!(twice, once);

    let once = resolve_str("${A}-done", &ctx, &env);
    let twice = resolve_str(&once, &ctx, &env);
    assert_eq!(once, "x-done");
    assert_eq!(twice, once);
}

#[test]
fn resolved_copy_leaves_original() {
    let ctx = ctx_of(&[("A", "x")]);
    let env = ctx_of(&[]);
    let original = "${A}".to_string();
    let copy = original.resolved(&ctx, &env);
    assert_eq!(original, "${A}");
    assert_eq!(copy, "x");
}

#[test]
fn option_and_vector_resolve_elementwise() {
    let ctx = ctx_of(&[("A", "x")]);
    let env = ctx_of(&[]);
    let mut opt: Option<String> = Some("${A}".to_string());
    opt.resolve(&ctx, &env);
    assert_eq!(opt, Some("x".to_string()));

    let mut none: Option<String> = None;
    none.resolve(&ctx, &env);
    assert_eq!(none, None);

    let mut list: Vec<String> = vec!["${A}".to_string(), "keep".to_string()];
    list.resolve(&ctx, &env);
    assert_eq!(list, vec!["x".to_string(), "keep".to_string()]);
}

#[test]
fn path_separators_survive_as_text() {
    let ctx = ctx_of(&[("ROOT", "C:\\Users\\someone")]);
    let env = ctx_of(&[]);
    assert_eq!(
        resolve_str("${ROOT}\\bin", &ctx, &env),
        "C:\\Users\\someone\\bin"
    );
}

#[test]
fn context_lookup_reads_latest_entry() {
    let ctx = Context::new(vec![
        ("K".to_string(), "first".to_string()),
        ("K".to_string(), "second".to_string()),
    ]);
    assert_eq!(ctx.get("K"), Some(&"second".to_string()));
    assert_eq!(ctx.get("missing"), None);
    let empty = Context::empty();
    assert_eq!(empty.get("K"), None);
}

#[test]
fn context_duplicate_matches() {
    let ctx = ctx_of(&[("A", "x"), ("B", "y")]);
    let copy = ctx.duplicate();
    assert_eq!(copy.get("A"), Some(&"x".to_string()));
    assert_eq!(copy.get("B"), Some(&"y".to_string()));
    assert_eq!(copy.get("C"), None);
}
