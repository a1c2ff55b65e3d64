use fast_release::cli::CliParams;
use fast_release::config::{
    get, validate_and_transform_config, ConfigBranchEnum, ConfigFile, ConfigFileBranch,
    ConfigProject,
};
use fast_release::error::{render, FastReleaseError, FastReleaseErrorBuilder};

fn cli(dry_run: bool) -> CliParams {
    CliParams { dry_run, config_file_path: None }
}

fn project(name: &str) -> ConfigProject {
    ConfigProject { name: name.to_string(), path: format!("./{}", name), modules: vec!["m".to_string()] }
}

fn file(branches: Vec<ConfigBranchEnum>, projects: Vec<ConfigProject>) -> ConfigFile {
    ConfigFile {
        version: 3,
        tag_format: "v${version}".to_string(),
        modules: vec!["changelog".to_string(), "git".to_string()],
        branches,
        projects,
    }
}

fn simple(name: &str) -> ConfigBranchEnum {
    ConfigBranchEnum::Simple(name.to_string())
}

fn with_properties(entries: Vec<(&str, Vec<Option<bool>>)>) -> ConfigBranchEnum {
    ConfigBranchEnum::WithProperties(
        entries
            .into_iter()
            .map(|(name, flags)| {
                (
                    name.to_string(),
                    flags.into_iter().map(|pre_release| ConfigFileBranch { pre_release }).collect(),
                )
            })
            .collect(),
    )
}

fn failure(r: Result<fast_release::config::Config, FastReleaseError>) -> FastReleaseError {
    match r {
        Ok(c) => panic!("unexpected success: {:?}", c),
        Err(e) => e,
    }
}

#[test]
fn valid_file_is_taken_over() {
    let config = validate_and_transform_config(
        file(vec![simple("main")], vec![project("a"), project("b")]),
        &cli(true),
    );
    let config = match config {
        Ok(c) => c,
        Err(e) => panic!("{}", e.to_text()),
    };
    assert_eq!(config.version, 3);
    assert_eq!(config.tag_format, "v${version}");
    assert_eq!(config.modules, vec!["changelog".to_string(), "git".to_string()]);
    assert_eq!(config.branches.len(), 1);
    assert_eq!(config.branches[0].name, "main");
    assert!(!config.branches[0].pre_release);
    assert_eq!(config.projects.len(), 2);
    assert_eq!(config.projects[0].name, "a");
    assert_eq!(config.projects[0].path, "./a");
    assert_eq!(config.projects[0].modules, vec!["m".to_string()]);
    assert_eq!(config.projects[1].name, "b");
    assert!(config.dry_run);
}

#[test]
fn dry_run_comes_from_the_command_line() {
    let config = validate_and_transform_config(file(vec![simple("main")], vec![project("a")]), &cli(false));
    assert!(!config.ok().unwrap().dry_run);
}

#[test]
fn branches_are_resolved_in_order() {
    let branches = vec![
        simple("main"),
        with_properties(vec![("beta", vec![Some(true)])]),
        with_properties(vec![("next", vec![Some(false), Some(true)])]),
        with_properties(vec![("alpha", vec![None])]),
        with_properties(vec![("first", vec![Some(true)]), ("second", vec![Some(false)])]),
        simple("maintenance"),
    ];
    let config = validate_and_transform_config(file(branches, vec![project("a")]), &cli(false)).ok().unwrap();
    let got: Vec<(String, bool)> =
        config.branches.iter().map(|b| (b.name.clone(), b.pre_release)).collect();
    assert_eq!(
        got,
        vec![
            ("main".to_string(), false),
            ("beta".to_string(), true),
            ("next".to_string(), false),
            ("alpha".to_string(), false),
            ("first".to_string(), true),
            ("maintenance".to_string(), false),
        ]
    );
}

#[test]
fn entries_without_a_name_or_properties_stand_for_no_branch() {
    let branches = vec![
        with_properties(vec![]),
        with_properties(vec![("empty", vec![])]),
        with_properties(vec![("empty", vec![]), ("full", vec![Some(true)])]),
    ];
    let config = validate_and_transform_config(file(branches, vec![project("a")]), &cli(false)).ok().unwrap();
    assert!(config.branches.is_empty());
}

#[test]
fn file_without_branches_is_refused() {
    let e = failure(validate_and_transform_config(file(vec![], vec![project("a")]), &cli(false)));
    assert_eq!(
        e.message,
        "There are no branches on the configuration file. There must be at least one."
    );
    assert_eq!(e.category.as_deref(), Some("CONFIG"));
    assert!(e.error.is_none());
}

#[test]
fn file_without_projects_is_refused() {
    let e = failure(validate_and_transform_config(file(vec![simple("main")], vec![]), &cli(false)));
    assert_eq!(
        e.message,
        "There are no projects on the configuration file. There must be at least one."
    );
    assert_eq!(e.category.as_deref(), Some("CONFIG"));
    assert!(e.error.is_none());
}

#[test]
fn missing_branches_are_reported_first() {
    let e = failure(validate_and_transform_config(file(vec![], vec![]), &cli(false)));
    assert_eq!(
        e.message,
        "There are no branches on the configuration file. There must be at least one."
    );
}

#[test]
fn unread_file_hands_its_error_on() {
    let unread = FastReleaseErrorBuilder::new("Couldn't find a configuration file.").category("CONFIG").get();
    let e = failure(get(Err(unread), &cli(false)));
    assert_eq!(e.message, "Couldn't find a configuration file.");
    assert_eq!(e.category.as_deref(), Some("CONFIG"));
    let config = get(Ok(file(vec![simple("main")], vec![project("a")])), &cli(true)).ok().unwrap();
    assert_eq!(config.branches[0].name, "main");
    assert!(config.dry_run);
    let e = failure(get(Ok(file(vec![], vec![project("a")])), &cli(true)));
    assert_eq!(e.category.as_deref(), Some("CONFIG"));
}

#[test]
fn error_builder_sets_each_field() {
    let e = FastReleaseErrorBuilder::new("message").get();
    assert_eq!(e.message, "message");
    assert_eq!(e.category, None);
    assert!(e.error.is_none());
    let io = std::io::Error::new(std::io::ErrorKind::Other, "disk on fire");
    let e = FastReleaseErrorBuilder::new("message").category("CLI").error(io).category("CONFIG").get();
    assert_eq!(e.message, "message");
    assert_eq!(e.category.as_deref(), Some("CONFIG"));
    assert_eq!(e.error.as_ref().unwrap().kind(), std::io::ErrorKind::Other);
    assert_eq!(e.error.as_ref().unwrap().to_string(), "disk on fire");
}

#[test]
fn error_text_is_message_and_cause() {
    let e = FastReleaseErrorBuilder::new("Failed to open the configuration file.").get();
    assert_eq!(e.to_text(), "Failed to open the configuration file.");
    let io = std::io::Error::new(std::io::ErrorKind::Other, "disk on fire");
    let e = FastReleaseErrorBuilder::new("Failed to open the configuration file.").error(io).get();
    assert_eq!(e.to_text(), "Failed to open the configuration file.\ndisk on fire");
    assert_eq!(render("m", None), "m");
    assert_eq!(render("m", Some("d")), "m\nd");
    assert_eq!(render("", Some("")), "\n");
}

#[test]
fn candidates_pair_each_name_with_each_extension() {
    let names = vec!["release".to_string(), ".release".to_string()];
    let extensions = vec!["yml".to_string(), "yaml".to_string(), "json".to_string()];
    assert_eq!(
        fast_release::config::candidate_names(&names, &extensions),
        vec![
            "release.yml".to_string(),
            "release.yaml".to_string(),
            "release.json".to_string(),
            ".release.yml".to_string(),
            ".release.yaml".to_string(),
            ".release.json".to_string(),
        ]
    );
    assert!(fast_release::config::candidate_names(&names, &vec![]).is_empty());
    assert!(fast_release::config::candidate_names(&vec![], &extensions).is_empty());
    assert_eq!(
        fast_release::config::candidate_names(&vec![String::new()], &vec![String::new()]),
        vec![".".to_string()]
    );
}

#[test]
fn first_present_candidate_is_chosen() {
    assert_eq!(fast_release::config::first_found(&vec![false, true, true]), Some(1));
    assert_eq!(fast_release::config::first_found(&vec![true]), Some(0));
    assert_eq!(fast_release::config::first_found(&vec![false, false]), None);
    assert_eq!(fast_release::config::first_found(&vec![]), None);
}

#[test]
fn command_line_defaults_to_a_real_run() {
    let p = CliParams::from_arguments(None, None);
    assert!(!p.dry_run);
    assert_eq!(p.config_file_path, None);
    let p = CliParams::from_arguments(Some("custom.yml".to_string()), Some(true));
    assert!(p.dry_run);
    assert_eq!(p.config_file_path.as_deref(), Some("custom.yml"));
    let p = CliParams::from_arguments(None, Some(false));
    assert!(!p.dry_run);
}
