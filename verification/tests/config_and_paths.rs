use kuken_installer::Mode;
use kuken_installer::cli::{Cli, Commands, InstallCommands, WebInstallArgs};
use kuken_installer::config::{compose_file_name, env_file_content, mode_label, sparse_checkout_content};
use kuken_installer::fetch::flatten_plan;
use kuken_installer::paths::{install_dir_path, resolve_install_dir};

#[test]
fn sparse_specification_is_exactly_one_pattern_line() {
    assert_eq!(sparse_checkout_content("web"), "web/*\n");
}

#[test]
fn sparse_specification_follows_subdirectory_name() {
    assert_eq!(sparse_checkout_content("docs"), "docs/*\n");
}

#[test]
fn env_file_holds_single_newline_terminated_binding() {
    assert_eq!(
        env_file_content("https://example.test"),
        "VITE_KUKEN_API=https://example.test\n"
    );
}

#[test]
fn compose_definition_names_are_exact() {
    assert_eq!(compose_file_name(Mode::Development), "docker-compose.dev.yml");
    assert_eq!(compose_file_name(Mode::Production), "docker-compose.prod.yml");
}

#[test]
fn mode_labels_are_exact() {
    assert_eq!(mode_label(Mode::Development), "development");
    assert_eq!(mode_label(Mode::Production), "production");
}

#[test]
fn install_dir_is_fixed_subdirectory_of_home() {
    assert_eq!(install_dir_path("/home/user"), "/home/user/.kuken/web");
}

#[test]
fn resolved_install_dir_ends_with_fixed_suffix() {
    match resolve_install_dir() {
        Some(path) => assert!(path.ends_with("/.kuken/web")),
        None => panic!("expected a home directory in the test environment"),
    }
}

#[test]
fn flatten_plan_skips_entries_already_at_root() {
    let sub = vec![
        "index.html".to_string(),
        ".git".to_string(),
        "package.json".to_string(),
    ];
    let root = vec![".git".to_string(), "web".to_string()];
    assert_eq!(
        flatten_plan(&sub, &root),
        vec!["index.html".to_string(), "package.json".to_string()]
    );
}

#[test]
fn flatten_plan_is_empty_when_everything_collides() {
    let sub = vec!["a".to_string(), "b".to_string()];
    let root = vec!["b".to_string(), "a".to_string()];
    assert_eq!(flatten_plan(&sub, &root), Vec::<String>::new());
}

#[test]
fn flatten_plan_keeps_listing_order() {
    let sub = vec!["c".to_string(), "a".to_string(), "b".to_string()];
    let root = Vec::new();
    assert_eq!(
        flatten_plan(&sub, &root),
        vec!["c".to_string(), "a".to_string(), "b".to_string()]
    );
}

#[test]
fn cli_dispatch_reaches_web_args() {
    let cli = Cli {
        command: Commands::Install {
            command: InstallCommands::Web(WebInstallArgs {
                dev: true,
                api_url: Some("https://example.test".to_string()),
            }),
        },
    };
    let args = cli.into_web_args();
    assert!(args.dev);
    assert_eq!(args.api_url.as_deref(), Some("https://example.test"));
}

#[test]
fn dev_flag_selects_mode() {
    let dev = WebInstallArgs { dev: true, api_url: None };
    let prod = WebInstallArgs { dev: false, api_url: None };
    assert_eq!(dev.mode(), Mode::Development);
    assert_eq!(prod.mode(), Mode::Production);
}
