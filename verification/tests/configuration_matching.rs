use qx::actions::{Action, ActionShowMessage};
use qx::configuration::Configuration;
use qx::context::Context;
use qx::environment::Environment;
use qx::resolve::Resolvable;
use qx::system::{Platform, System};

fn env_named(name: &str) -> Environment {
    Environment {
        name: name.to_string(),
        description: format!("{} environment", name),
        actions: Vec::new(),
    }
}

fn sample_configuration() -> Configuration {
    Configuration {
        system: System::new(None, None, None, None, None, false, Platform::Other),
        variables: Context::empty(),
        environments: vec![env_named("prod"), env_named("dev-b"), env_named("dev-a")],
    }
}

#[test]
fn prefix_filter_finds_both_dev_environments() {
    let configuration = sample_configuration();
    let found = configuration.filter_environments("dev");
    assert_eq!(found.len(), 2);
    assert_eq!(found[0].name, "dev-a");
    assert_eq!(found[1].name, "dev-b");
}

#[test]
fn unique_prefix_finds_exactly_one() {
    let configuration = sample_configuration();
    let found = configuration.filter_environments("prod");
    assert_eq!(found.len(), 1);
    assert_eq!(found[0].name, "prod");
}

#[test]
fn unknown_filter_finds_nothing() {
    let configuration = sample_configuration();
    assert!(configuration.filter_environments("qa").is_empty());
}

#[test]
fn exact_name_beats_its_own_prefix_matches() {
    let configuration = Configuration {
        system: System::new(None, None, None, None, None, false, Platform::Other),
        variables: Context::empty(),
        environments: vec![env_named("dev-a"), env_named("dev-a-extra")],
    };
    let found = configuration.filter_environments("dev-a");
    assert_eq!(found.len(), 1);
    assert_eq!(found[0].name, "dev-a");
}

#[test]
fn listing_is_sorted_by_name() {
    let configuration = sample_configuration();
    let all = configuration.list_environment_names();
    let names: Vec<&str> = all.iter().map(|e| e.name.as_str()).collect();
    assert_eq!(names, vec!["dev-a", "dev-b", "prod"]);
}

#[test]
fn environment_display_line_has_name_and_description() {
    let environment = env_named("dev-a");
    assert_eq!(environment.display_line(), "dev-a: dev-a environment");
}

#[test]
fn configuration_resolve_reaches_every_environment() {
    let mut configuration = Configuration {
        system: System::new(None, None, None, None, None, false, Platform::Other),
        variables: Context::new(vec![("WHO".to_string(), "team".to_string())]),
        environments: vec![Environment {
            name: "greet".to_string(),
            description: "greets ${WHO}".to_string(),
            actions: vec![Action::ShowMessage(ActionShowMessage {
                message: "hello ${WHO} and %OTHER%".to_string(),
            })],
        }],
    };
    let variables = configuration.variables.duplicate();
    let environ = Context::new(vec![("OTHER".to_string(), "guests".to_string())]);
    configuration.resolve(&variables, &environ);
    assert_eq!(configuration.environments[0].description, "greets team");
    match &configuration.environments[0].actions[0] {
        Action::ShowMessage(m) => assert_eq!(m.message, "hello team and guests"),
        _ => panic!("the kind never changes"),
    }

    // A second pass over the now placeholder-free tree changes nothing.
    let before = configuration.environments[0].actions[0].to_pretty_string();
    configuration.resolve(&variables, &environ);
    let after = configuration.environments[0].actions[0].to_pretty_string();
    assert_eq!(after, before);
    assert_eq!(configuration.environments[0].description, "greets team");
}

#[test]
fn default_configuration_is_empty() {
    let configuration = Configuration::default();
    assert!(configuration.environments.is_empty());
    assert!(configuration.list_environment_names().is_empty());
    assert_eq!(configuration.variables.get("anything"), None);
    assert!(!configuration.system.should_defaults_to_interactive());
}
