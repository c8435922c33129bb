use css_variables::command::{
    augment_path, build_css_variables_command, check_language_server_id, invocation, Command,
};
use css_variables::config::{
    default_blacklist_folders, default_lookup_files, BLACKLIST_FOLDERS_KEY, LOOKUP_FILES_KEY,
    SETTINGS_KEY,
};
use css_variables::launch::launch_command;
use css_variables::release::Platform;
use css_variables::resolver::{Resolved, ResolvedBinary, Tier};

fn env(pairs: &[(&str, &str)]) -> Vec<(String, String)> {
    pairs.iter().map(|(k, v)| (k.to_string(), v.to_string())).collect()
}

#[test]
fn augment_path_prefixes_the_first_path_variable() {
    assert_eq!(
        augment_path(&env(&[("HOME", "/h"), ("PATH", "/usr/bin:/bin"), ("LANG", "C")])),
        env(&[
            ("HOME", "/h"),
            ("PATH", "/opt/homebrew/bin:/usr/local/bin:/usr/bin:/bin"),
            ("LANG", "C"),
        ])
    );
    assert_eq!(
        augment_path(&env(&[("PATH", "a"), ("PATH", "b")])),
        env(&[("PATH", "/opt/homebrew/bin:/usr/local/bin:a"), ("PATH", "b")])
    );
    assert_eq!(
        augment_path(&env(&[("PATH", "")])),
        env(&[("PATH", "/opt/homebrew/bin:/usr/local/bin:")])
    );
}

#[test]
fn augment_path_adds_a_path_variable_where_there_is_none() {
    assert_eq!(augment_path(&env(&[])), env(&[("PATH", "/opt/homebrew/bin:/usr/local/bin")]));
    assert_eq!(
        augment_path(&env(&[("Path", "/x"), ("HOME", "/h")])),
        env(&[("Path", "/x"), ("HOME", "/h"), ("PATH", "/opt/homebrew/bin:/usr/local/bin")])
    );
}

#[test]
fn build_command_wraps_the_server_in_a_shell() {
    let r = build_css_variables_command(
        Some("/usr/local/bin/css-variables-language-server"),
        &Vec::new(),
        &env(&[("PATH", "/usr/bin")]),
    );
    assert_eq!(
        r,
        Ok(Command {
            command: "/bin/sh".to_string(),
            args: vec![
                "-lc".to_string(),
                "\"/usr/local/bin/css-variables-language-server\" --stdio 2>>\"/tmp/css-variables-lsp.log\""
                    .to_string(),
            ],
            env: env(&[("PATH", "/opt/homebrew/bin:/usr/local/bin:/usr/bin")]),
        })
    );
}

#[test]
fn build_command_without_a_server_says_how_to_install_one() {
    assert_eq!(
        build_css_variables_command(None, &Vec::new(), &env(&[("PATH", "/usr/bin")])),
        Err(
            "css-variables-language-server not found in PATH. Install it with: npm i -g css-variables-language-server"
                .to_string()
        )
    );
}

#[test]
fn build_command_puts_extra_arguments_into_the_script() {
    let args = vec!["--color-only".to_string(), "a b".to_string()];
    let r = build_css_variables_command(Some("server"), &args, &env(&[]));
    assert_eq!(
        r,
        Ok(Command {
            command: "/bin/sh".to_string(),
            args: vec![
                "-lc".to_string(),
                "\"server\" --stdio \"--color-only\" \"a b\" 2>>\"/tmp/css-variables-lsp.log\""
                    .to_string(),
            ],
            env: env(&[("PATH", "/opt/homebrew/bin:/usr/local/bin")]),
        })
    );
}

#[test]
fn launch_command_goes_through_the_shell_for_the_search_path_only() {
    let found = |tier: Tier| {
        Resolved::Binary(ResolvedBinary { path: "/usr/bin/css-variable-lsp".to_string(), tier })
    };
    let args = vec!["-v".to_string()];
    let e = env(&[("PATH", "/bin")]);
    let direct = invocation("/usr/bin/css-variable-lsp", &args, &e);
    let shell = build_css_variables_command(Some("/usr/bin/css-variable-lsp"), &args, &e);
    for platform in [Platform::Mac, Platform::Linux] {
        assert_eq!(Ok(launch_command(found(Tier::AmbientPath), platform, &args, &e)), shell);
    }
    assert_eq!(launch_command(found(Tier::AmbientPath), Platform::Windows, &args, &e), direct);
    for tier in [
        Tier::Override,
        Tier::DevBuild,
        Tier::ValidatedCache,
        Tier::LatestRelease,
        Tier::AnyCached,
    ] {
        for platform in [Platform::Mac, Platform::Linux, Platform::Windows] {
            assert_eq!(launch_command(found(tier), platform, &args, &e), direct);
        }
    }
}

#[test]
fn launch_command_keeps_the_alternate_channel_command() {
    let command = Command {
        command: "/opt/node".to_string(),
        args: vec!["server.js".to_string()],
        env: env(&[("A", "b")]),
    };
    assert_eq!(
        launch_command(
            Resolved::Command(command.clone()),
            Platform::Linux,
            &vec!["ignored".to_string()],
            &env(&[("PATH", "/bin")]),
        ),
        command
    );
}

#[test]
fn invocation_runs_the_binary_directly() {
    let args = vec!["--stdio".to_string(), "-v".to_string()];
    assert_eq!(
        invocation("cache/css-variable-lsp", &args, &env(&[("A", "1")])),
        Command {
            command: "cache/css-variable-lsp".to_string(),
            args: args.clone(),
            env: env(&[("A", "1"), ("PATH", "/opt/homebrew/bin:/usr/local/bin")]),
        }
    );
    assert_eq!(
        invocation("bin", &Vec::new(), &env(&[("PATH", "/p")])),
        Command {
            command: "bin".to_string(),
            args: Vec::new(),
            env: env(&[("PATH", "/opt/homebrew/bin:/usr/local/bin:/p")]),
        }
    );
}

#[test]
fn language_server_id_is_checked() {
    assert_eq!(check_language_server_id("css_variables"), Ok(()));
    assert_eq!(
        check_language_server_id("rust-analyzer"),
        Err("Unknown language server id: rust-analyzer".to_string())
    );
    assert_eq!(check_language_server_id(""), Err("Unknown language server id: ".to_string()));
    assert_eq!(
        check_language_server_id("css_variables "),
        Err("Unknown language server id: css_variables ".to_string())
    );
}

#[test]
fn default_configuration_lists() {
    assert_eq!(SETTINGS_KEY, "cssVariables");
    assert_eq!(LOOKUP_FILES_KEY, "lookupFiles");
    assert_eq!(BLACKLIST_FOLDERS_KEY, "blacklistFolders");
    assert_eq!(default_lookup_files(), vec!["**/*.less", "**/*.scss", "**/*.sass", "**/*.css"]);
    assert_eq!(
        default_blacklist_folders(),
        vec![
            "**/.cache",
            "**/.DS_Store",
            "**/.git",
            "**/.hg",
            "**/.next",
            "**/.svn",
            "**/bower_components",
            "**/CVS",
            "**/dist",
            "**/node_modules",
            "**/tests",
            "**/tmp",
        ]
    );
}
