use customs::cli::account::{account_url, action_for, failure_message, menu, AccountAction};
use customs::cli::add::{module_dir, module_url, repository_url, strip_quotes};
use customs::cli::init::{manifest_text, GITIGNORE};
use customs::cli::{pack, run, Cli, Commands, Session};
use customs::init::{confirms, is_allowed, is_yes, template_url};
use customs::model::Config;
use customs::pipeline::Action;

#[test]
fn build_command_opens_a_build() {
    let cli = Cli {
        command: Commands::Build(pack::Cli {
            allow_dirty: true,
            yes: false,
            path: Some(String::from("plugins/demo")),
        }),
    };
    match run(cli) {
        Session::Build { path, build, action } => {
            assert_eq!(path.as_deref(), Some("plugins/demo"));
            assert!(build.options.allow_dirty);
            assert!(!build.options.auto_yes);
            assert!(matches!(action, Action::ReadManifest));
        }
        Session::Init => panic!("expected a build"),
    }
}

#[test]
fn init_command_opens_init() {
    let cli = Cli { command: Commands::Init(customs::cli::init::Cli {}) };
    assert!(matches!(run(cli), Session::Init));
}

#[test]
fn new_plugin_manifest() {
    assert_eq!(
        manifest_text("demo", "A demo", "ana"),
        "[plugin]\nname = \"demo\"\nversion = \"0.1.0\"\ndescription = \"A demo\"\nauthors = [\"ana\"]"
    );
    assert_eq!(GITIGNORE, "# Ignore target directory\n/target/");
}

#[test]
fn account_menu_and_urls() {
    assert_eq!(menu(), vec!["create", "delete", "login", "logout", "view"]);
    assert_eq!(action_for(2), Some(AccountAction::Login));
    assert_eq!(action_for(5), None);
    assert_eq!(
        account_url(AccountAction::Login, "ana", "pw"),
        "https://customs-server.vercel.app/api/accounts/login/ana/pw"
    );
    assert_eq!(failure_message(None), "Internal error");
    assert_eq!(failure_message(Some(String::from("taken"))), "taken");
}

#[test]
fn module_lookup_urls() {
    assert_eq!(
        module_url("luau", "json"),
        "https://customs-server.vercel.app/api/modules/find/luau/json"
    );
    assert_eq!(strip_quotes("\"\"a\"b\""), "a\"b");
    assert_eq!(strip_quotes("\"\""), "");
    assert_eq!(repository_url("\"owner/repo\""), "https://github.com/owner/repo");
    assert_eq!(module_dir("/home/u/p", "json"), "/home/u/p/CustomsModules/json");
}

#[test]
fn template_lookup() {
    let config = Config {
        allowed_languages: vec![String::from("js"), String::from("luau")],
        git_url: String::from("https://example.org/template"),
    };
    assert!(is_allowed(&config, "luau"));
    assert!(!is_allowed(&config, "rust"));
    assert_eq!(
        template_url(&config, None),
        Ok(String::from("https://example.org/template-js/"))
    );
    assert_eq!(
        template_url(&config, Some(String::from("luau"))),
        Ok(String::from("https://example.org/template-luau/"))
    );
    assert_eq!(template_url(&config, Some(String::from("rust"))), Err(String::from("rust")));
}

#[test]
fn confirmation_answers() {
    assert!(confirms("  YES \n"));
    assert!(confirms("yes"));
    assert!(!confirms("no"));
    assert!(!confirms("y"));
    assert!(is_yes("yes"));
    assert!(!is_yes("Yes"));
}
