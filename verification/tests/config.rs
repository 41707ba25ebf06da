use control_plane::config::{
    default_launcher_overrides, extract_active_status, extract_command_args, plan_launch,
    run_mcp_commands, select_startable, tally_startup, ConfigError, LauncherOverride,
};
use control_plane::json::{parse_json_text, JsonValue};

fn json(text: &str) -> JsonValue {
    parse_json_text(text).unwrap()
}

#[test]
fn command_and_args_are_read_from_an_entry() {
    let entry = json("{\"command\":\"npx\",\"args\":[\"-y\",\"pkg\",3],\"env\":{\"K\":\"v\"}}");
    let found = extract_command_args(&entry).unwrap();
    assert_eq!(found.command, "npx");
    assert_eq!(found.args.len(), 3);
    assert_eq!(found.args[0].as_str().unwrap(), "-y");
    assert!(found.args[2].as_str().is_none());
    let env = found.env.unwrap();
    assert_eq!(env.len(), 1);
    assert_eq!(env[0].0, "K");
    assert_eq!(env[0].1.as_str().unwrap(), "v");
}

#[test]
fn an_entry_without_env_has_an_empty_environment() {
    let entry = json("{\"command\":\"run\",\"args\":[]}");
    let found = extract_command_args(&entry).unwrap();
    assert_eq!(found.command, "run");
    assert!(found.args.is_empty());
    assert!(found.env.is_none());
}

#[test]
fn an_entry_that_describes_no_launch_gives_nothing() {
    for text in [
        "[]",
        "\"npx\"",
        "{}",
        "{\"command\":\"npx\"}",
        "{\"args\":[]}",
        "{\"command\":5,\"args\":[]}",
        "{\"command\":\"npx\",\"args\":\"-y\"}",
        "{\"command\":\"npx\",\"args\":[],\"env\":[]}",
        "{\"command\":\"npx\",\"args\":[],\"env\":null}",
    ] {
        assert!(extract_command_args(&json(text)).is_none());
        assert!(plan_launch(&json(text), &Vec::new(), "/bin", "/data").is_none());
    }
}

#[test]
fn the_active_flag_is_read_where_it_is_a_boolean() {
    assert_eq!(extract_active_status(&json("{\"active\":true}")), Some(true));
    assert_eq!(extract_active_status(&json("{\"active\":false}")), Some(false));
    assert_eq!(extract_active_status(&json("{\"active\":\"false\"}")), None);
    assert_eq!(extract_active_status(&json("{\"active\":0}")), None);
    assert_eq!(extract_active_status(&json("{}")), None);
    assert_eq!(extract_active_status(&json("[false]")), None);
}

#[test]
fn a_plain_command_is_launched_as_it_stands() {
    let entry = json(
        "{\"command\":\"python\",\"args\":[\"-m\",7,\"srv\",null],\"env\":{\"A\":\"1\",\"B\":2,\"C\":\"3\"}}",
    );
    let launch = plan_launch(&entry, &default_launcher_overrides(true), "/bin", "/data").unwrap();
    assert_eq!(launch.program, "python");
    assert_eq!(launch.args, vec!["-m".to_string(), "srv".to_string()]);
    assert_eq!(
        launch.env,
        vec![("A".to_string(), "1".to_string()), ("C".to_string(), "3".to_string())]
    );
}

#[test]
fn npx_is_replaced_by_the_bundled_launcher() {
    let entry = json("{\"command\":\"npx\",\"args\":[\"-y\",\"pkg\"],\"env\":{\"K\":\"v\"}}");
    let launch = plan_launch(&entry, &default_launcher_overrides(true), "/app/bin", "/data").unwrap();
    assert_eq!(launch.program, "/app/bin/bun");
    assert_eq!(launch.args, vec!["x".to_string(), "-y".to_string(), "pkg".to_string()]);
    assert_eq!(
        launch.env,
        vec![
            ("BUN_INSTALL".to_string(), "/data/.npx".to_string()),
            ("K".to_string(), "v".to_string())
        ]
    );
    let launch =
        plan_launch(&entry, &default_launcher_overrides(false), "/app/bin", "/data").unwrap();
    assert_eq!(launch.program, "npx");
    assert_eq!(launch.args, vec!["-y".to_string(), "pkg".to_string()]);
    assert_eq!(launch.env, vec![("K".to_string(), "v".to_string())]);
}

#[test]
fn uvx_is_replaced_by_the_bundled_launcher() {
    let entry = json("{\"command\":\"uvx\",\"args\":[\"tool-name\"]}");
    for can_override_npx in [false, true] {
        let overrides = default_launcher_overrides(can_override_npx);
        let launch = plan_launch(&entry, &overrides, "/app/bin", "/data").unwrap();
        assert_eq!(launch.program, "/app/bin/uv");
        assert_eq!(
            launch.args,
            vec!["tool".to_string(), "run".to_string(), "tool-name".to_string()]
        );
        assert_eq!(launch.env, vec![("UV_CACHE_DIR".to_string(), "/data/.uvx".to_string())]);
    }
}

#[test]
fn the_bundled_launchers_are_a_matter_of_configuration() {
    let overrides = vec![
        LauncherOverride {
            command: "deno".to_string(),
            program: "deno-bundled".to_string(),
            leading_args: vec!["run".to_string(), "-A".to_string()],
            cache_variable: "DENO_DIR".to_string(),
            cache_directory: ".deno".to_string(),
        },
        LauncherOverride {
            command: "deno".to_string(),
            program: "never".to_string(),
            leading_args: Vec::new(),
            cache_variable: "X".to_string(),
            cache_directory: "x".to_string(),
        },
    ];
    let entry = json("{\"command\":\"deno\",\"args\":[\"main.ts\"]}");
    let launch = plan_launch(&entry, &overrides, "b", "d").unwrap();
    assert_eq!(launch.program, "b/deno-bundled");
    assert_eq!(launch.args, vec!["run".to_string(), "-A".to_string(), "main.ts".to_string()]);
    assert_eq!(launch.env, vec![("DENO_DIR".to_string(), "d/.deno".to_string())]);
    let entry = json("{\"command\":\"npx\",\"args\":[]}");
    assert_eq!(plan_launch(&entry, &overrides, "b", "d").unwrap().program, "npx");
    assert_eq!(plan_launch(&entry, &Vec::new(), "b", "d").unwrap().program, "npx");
}

#[test]
fn the_default_launchers() {
    let both = default_launcher_overrides(true);
    assert_eq!(both.len(), 2);
    assert_eq!(both[0].command, "npx");
    assert_eq!(both[0].program, "bun");
    assert_eq!(both[0].leading_args, vec!["x".to_string()]);
    assert_eq!(both[0].cache_variable, "BUN_INSTALL");
    assert_eq!(both[0].cache_directory, ".npx");
    assert_eq!(both[1].command, "uvx");
    let one = default_launcher_overrides(false);
    assert_eq!(one.len(), 1);
    assert_eq!(one[0].command, "uvx");
    assert_eq!(one[0].program, "uv");
    assert_eq!(one[0].leading_args, vec!["tool".to_string(), "run".to_string()]);
    assert_eq!(one[0].cache_variable, "UV_CACHE_DIR");
    assert_eq!(one[0].cache_directory, ".uvx");
}

#[test]
fn every_service_is_started_but_those_marked_inactive() {
    let text = "{\"mcpServers\":{\"a\":{\"command\":\"x\",\"args\":[]},\"b\":{\"command\":\"y\",\"args\":[],\"active\":false},\"c\":{\"command\":\"z\",\"args\":[],\"active\":true},\"d\":{\"active\":\"false\"}}}";
    let plan = run_mcp_commands(text).unwrap();
    let names: Vec<&str> = plan.iter().map(|entry| entry.0.as_str()).collect();
    assert_eq!(names, vec!["a", "c", "d"]);
    assert_eq!(plan[0].1.get("command").unwrap().as_str().unwrap(), "x");
    assert_eq!(plan[1].1.get("command").unwrap().as_str().unwrap(), "z");
}

#[test]
fn a_configuration_without_servers_is_refused() {
    assert!(matches!(run_mcp_commands("{}"), Err(ConfigError::NoServers)));
    assert!(matches!(run_mcp_commands("{\"mcpServers\":[]}"), Err(ConfigError::NoServers)));
    assert!(matches!(run_mcp_commands("{\"mcpServers\":null}"), Err(ConfigError::NoServers)));
    assert!(matches!(run_mcp_commands("[]"), Err(ConfigError::NoServers)));
    assert!(select_startable(json("{\"other\":{}}")).is_none());
    let none = run_mcp_commands("{\"mcpServers\":{}}").unwrap();
    assert!(none.is_empty());
}

#[test]
fn a_configuration_that_is_no_json_is_refused() {
    assert!(matches!(run_mcp_commands("{\"mcpServers\":"), Err(ConfigError::Unparseable(_))));
    assert!(matches!(run_mcp_commands(""), Err(ConfigError::Unparseable(_))));
}

#[test]
fn the_tally_counts_both_outcomes() {
    let tally = tally_startup(&vec![true, false, true, true]);
    assert_eq!(tally.successful, 3);
    assert_eq!(tally.failed, 1);
    let tally = tally_startup(&Vec::new());
    assert_eq!(tally.successful, 0);
    assert_eq!(tally.failed, 0);
}
