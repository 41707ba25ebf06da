//! The configuration of the supervised services: which are to be started,
//! and how each is launched.
//!
//! A configuration is a JSON object with a member `mcpServers`, which
//! maps the name of each service to its entry: `command`, `args`, and, if
//! wanted, `env` and `active`.

use crate::json::{entry_of, json_of_text, parse_json_text, JsonValue};
use crate::text::text_eq;
use vstd::prelude::*;

verus! {

/// What an entry says of the launch of its service.
#[derive(Debug)]
pub struct CommandArgs<'a> {
    pub command: &'a String,
    pub args: &'a Vec<JsonValue>,
    /// The entries of `env`; nothing where the entry has no `env`.
    pub env: Option<&'a Vec<(String, JsonValue)>>,
}

/// What a launch description is in contracts: the command, the
/// arguments, and the environment, empty where none is given.
pub struct CommandArgsView {
    pub command: Seq<char>,
    pub args: Seq<JsonValue>,
    pub env: Seq<(String, JsonValue)>,
}

impl<'a> View for CommandArgs<'a> {
    type V = CommandArgsView;

    open spec fn view(&self) -> CommandArgsView {
        CommandArgsView {
            command: self.command@,
            args: self.args@,
            env: match self.env {
                Some(entries) => entries@,
                None => Seq::empty(),
            },
        }
    }
}

/// What the entry `config` says of the launch: it must be an object with
/// a string `command` and an array `args`; its `env`, where it has one,
/// must be an object.
pub open spec fn command_args_of(config: JsonValue) -> Option<CommandArgsView> {
    match (config.member("command"@), config.member("args"@)) {
        (Some(JsonValue::String(command)), Some(JsonValue::Array(args))) => match config.member(
            "env"@,
        ) {
            None => Some(CommandArgsView { command: command@, args: args@, env: Seq::empty() }),
            Some(JsonValue::Object(env)) => Some(
                CommandArgsView { command: command@, args: args@, env: env@ },
            ),
            Some(_) => None,
        },
        _ => None,
    }
}

/// What the entry `config` says of whether its service is active: the
/// value of its boolean member `active`.
pub open spec fn active_status_of(config: JsonValue) -> Option<bool> {
    match config.member("active"@) {
        Some(JsonValue::Bool(active)) => Some(active),
        _ => None,
    }
}

/// The entry's service is to be started: anything but an explicit
/// `"active": false`.
pub open spec fn is_startable(config: JsonValue) -> bool {
    active_status_of(config) != Some(false)
}

/// The texts among `items`, in order; what is no string is left out.
pub open spec fn text_items(items: Seq<JsonValue>) -> Seq<Seq<char>>
    decreases items.len(),
{
    if items.len() == 0 {
        Seq::empty()
    } else {
        let before = text_items(items.drop_last());
        match items.last() {
            JsonValue::String(s) => before.push(s@),
            _ => before,
        }
    }
}

/// The entries of `env` whose value is a string, in order.
pub open spec fn text_entries(env: Seq<(String, JsonValue)>) -> Seq<(Seq<char>, Seq<char>)>
    decreases env.len(),
{
    if env.len() == 0 {
        Seq::empty()
    } else {
        let before = text_entries(env.drop_last());
        match env.last().1 {
            JsonValue::String(s) => before.push((env.last().0@, s@)),
            _ => before,
        }
    }
}

/// The texts of a list of strings.
pub open spec fn strings_view(v: Seq<String>) -> Seq<Seq<char>> {
    v.map_values(|s: String| s@)
}

/// The texts of a list of pairs of strings.
pub open spec fn pairs_view(v: Seq<(String, String)>) -> Seq<(Seq<char>, Seq<char>)> {
    v.map_values(|p: (String, String)| (p.0@, p.1@))
}

/// Reads from an entry what it says of the launch of its service.
pub fn extract_command_args<'a>(config: &'a JsonValue) -> (found: Option<CommandArgs<'a>>)
    ensures
        match found {
            Some(command_args) => command_args_of(*config) == Some(command_args@),
            None => command_args_of(*config) is None,
        },
{
    let command: &String = match config.get("command") {
        Some(value) => match value.as_str() {
            Some(command) => command,
            None => {
                return None;
            },
        },
        None => {
            return None;
        },
    };
    let args: &Vec<JsonValue> = match config.get("args") {
        Some(value) => match value.as_array() {
            Some(args) => args,
            None => {
                return None;
            },
        },
        None => {
            return None;
        },
    };
    match config.get("env") {
        None => Some(CommandArgs { command, args, env: None }),
        Some(value) => match value.as_object() {
            Some(env) => Some(CommandArgs { command, args, env: Some(env) }),
            None => None,
        },
    }
}

/// Reads from an entry whether its service is active.
pub fn extract_active_status(config: &JsonValue) -> (status: Option<bool>)
    ensures
        status == active_status_of(*config),
{
    match config.get("active") {
        Some(value) => value.as_bool(),
        None => None,
    }
}

/// The texts among `items`, in order.
pub fn collect_text_items(items: &Vec<JsonValue>) -> (texts: Vec<String>)
    ensures
        strings_view(texts@) == text_items(items@),
{
    let mut texts: Vec<String> = Vec::new();
    let mut i: usize = 0;
    while i < items.len()
        invariant
            i <= items.len(),
            strings_view(texts@) == text_items(items@.take(i as int)),
        decreases items.len() - i,
    {
        proof {
            assert(items@.take(i + 1).drop_last() =~= items@.take(i as int));
        }
        match items[i].as_str() {
            Some(s) => {
                let copy = s.clone();
                texts.push(copy);
            },
            None => {},
        }
        i += 1;
    }
    assert(items@.take(items.len() as int) =~= items@);
    texts
}

/// The entries of `env` whose value is a string, in order.
pub fn collect_text_entries(env: &Vec<(String, JsonValue)>) -> (pairs: Vec<(String, String)>)
    ensures
        pairs_view(pairs@) == text_entries(env@),
{
    let mut pairs: Vec<(String, String)> = Vec::new();
    let mut i: usize = 0;
    while i < env.len()
        invariant
            i <= env.len(),
            pairs_view(pairs@) == text_entries(env@.take(i as int)),
        decreases env.len() - i,
    {
        proof {
            assert(env@.take(i + 1).drop_last() =~= env@.take(i as int));
        }
        match env[i].1.as_str() {
            Some(s) => {
                let pair = (env[i].0.clone(), s.clone());
                pairs.push(pair);
            },
            None => {},
        }
        i += 1;
    }
    assert(env@.take(env.len() as int) =~= env@);
    pairs
}

/// A bundled launcher that stands in for a command: where an entry asks
/// for `command`, the program of that name under the directory of bundled
/// binaries is run instead, with `leading_args` before the entry's own
/// arguments, and with its cache under the data directory.
#[derive(Debug)]
pub struct LauncherOverride {
    /// The command that is replaced.
    pub command: String,
    /// The file name of the bundled program.
    pub program: String,
    /// The arguments that come before the entry's own.
    pub leading_args: Vec<String>,
    /// The environment variable that tells the program where its cache is.
    pub cache_variable: String,
    /// The name of the cache directory under the data directory.
    pub cache_directory: String,
}

/// How a service is launched.
#[derive(Debug)]
pub struct LaunchSpec {
    pub program: String,
    pub args: Vec<String>,
    /// Variables to set, in order; a later one wins over an earlier one
    /// of the same name.
    pub env: Vec<(String, String)>,
}

/// What a launch is in contracts.
pub struct LaunchSpecView {
    pub program: Seq<char>,
    pub args: Seq<Seq<char>>,
    pub env: Seq<(Seq<char>, Seq<char>)>,
}

impl View for LaunchSpec {
    type V = LaunchSpecView;

    open spec fn view(&self) -> LaunchSpecView {
        LaunchSpecView {
            program: self.program@,
            args: strings_view(self.args@),
            env: pairs_view(self.env@),
        }
    }
}

/// Position of the first override for `command`, or the number of
/// overrides where there is none.
pub open spec fn override_position(overrides: Seq<LauncherOverride>, command: Seq<char>) -> int
    decreases overrides.len(),
{
    if overrides.len() == 0 {
        0
    } else if overrides[0].command@ == command {
        0
    } else {
        1 + override_position(overrides.skip(1), command)
    }
}

/// Where the first `k` overrides are for other commands and the next one
/// is for `command`, or the list ends there, `k` is the position.
pub proof fn lemma_override_position(overrides: Seq<LauncherOverride>, command: Seq<char>, k: int)
    requires
        0 <= k <= overrides.len(),
        forall|j: int| 0 <= j < k ==> overrides[j].command@ != command,
        k == overrides.len() || overrides[k].command@ == command,
    ensures
        override_position(overrides, command) == k,
    decreases k,
{
    if k > 0 {
        let rest = overrides.skip(1);
        lemma_override_position(rest, command, k - 1);
    }
}

/// How the service of a launch description is launched: as the
/// description says, with the arguments and variables that are strings;
/// or, where the first override for its command says so, by the bundled
/// program, with the override's arguments and cache variable in front.
pub open spec fn launch_of(
    command_args: CommandArgsView,
    overrides: Seq<LauncherOverride>,
    bin_dir: Seq<char>,
    data_dir: Seq<char>,
) -> LaunchSpecView {
    let at = override_position(overrides, command_args.command);
    if 0 <= at < overrides.len() {
        let bundled = overrides[at];
        LaunchSpecView {
            program: bin_dir + "/"@ + bundled.program@,
            args: strings_view(bundled.leading_args@) + text_items(command_args.args),
            env: seq![(bundled.cache_variable@, data_dir + "/"@ + bundled.cache_directory@)]
                + text_entries(command_args.env),
        }
    } else {
        LaunchSpecView {
            program: command_args.command,
            args: text_items(command_args.args),
            env: text_entries(command_args.env),
        }
    }
}

/// The launch of the service of the entry `config`, if the entry
/// describes one.
pub open spec fn planned_launch(
    config: JsonValue,
    overrides: Seq<LauncherOverride>,
    bin_dir: Seq<char>,
    data_dir: Seq<char>,
) -> Option<LaunchSpecView> {
    match command_args_of(config) {
        Some(command_args) => Some(launch_of(command_args, overrides, bin_dir, data_dir)),
        None => None,
    }
}

/// The two bundled launchers: `bun x` for `npx`, where this machine can
/// run it, and `uv tool run` for `uvx`.
pub fn default_launcher_overrides(can_override_npx: bool) -> (overrides: Vec<LauncherOverride>)
    ensures
        overrides@.len() == if can_override_npx {
            2int
        } else {
            1int
        },
        can_override_npx ==> overrides@[0].command@ == "npx"@ && overrides@[0].program@ == "bun"@
            && strings_view(overrides@[0].leading_args@) == seq!["x"@]
            && overrides@[0].cache_variable@ == "BUN_INSTALL"@ && overrides@[0].cache_directory@
            == ".npx"@,
        overrides@.last().command@ == "uvx"@,
        overrides@.last().program@ == "uv"@,
        strings_view(overrides@.last().leading_args@) == seq!["tool"@, "run"@],
        overrides@.last().cache_variable@ == "UV_CACHE_DIR"@,
        overrides@.last().cache_directory@ == ".uvx"@,
{
    let mut overrides: Vec<LauncherOverride> = Vec::new();
    if can_override_npx {
        let leading = vec!["x".to_string()];
        overrides.push(
            LauncherOverride {
                command: "npx".to_string(),
                program: "bun".to_string(),
                leading_args: leading,
                cache_variable: "BUN_INSTALL".to_string(),
                cache_directory: ".npx".to_string(),
            },
        );
    }
    let leading = vec!["tool".to_string(), "run".to_string()];
    overrides.push(
        LauncherOverride {
            command: "uvx".to_string(),
            program: "uv".to_string(),
            leading_args: leading,
            cache_variable: "UV_CACHE_DIR".to_string(),
            cache_directory: ".uvx".to_string(),
        },
    );
    overrides
}

/// A copy of a list of strings.
pub fn copy_strings(strings: &Vec<String>) -> (copies: Vec<String>)
    ensures
        strings_view(copies@) == strings_view(strings@),
{
    let mut copies: Vec<String> = Vec::new();
    let mut i: usize = 0;
    while i < strings.len()
        invariant
            i <= strings.len(),
            copies.len() == i,
            forall|j: int| 0 <= j < i ==> (#[trigger] copies@[j])@ == strings@[j]@,
        decreases strings.len() - i,
    {
        copies.push(strings[i].clone());
        i += 1;
    }
    copies
}

/// Position of the first override for `command`.
pub fn find_override(overrides: &Vec<LauncherOverride>, command: &str) -> (at: usize)
    ensures
        at == override_position(overrides@, command@),
        at <= overrides.len(),
{
    let mut i: usize = 0;
    while i < overrides.len()
        invariant
            i <= overrides.len(),
            forall|j: int| 0 <= j < i ==> overrides@[j].command@ != command@,
        decreases overrides.len() - i,
    {
        if text_eq(overrides[i].command.as_str(), command) {
            proof {
                lemma_override_position(overrides@, command@, i as int);
            }
            return i;
        }
        i += 1;
    }
    proof {
        lemma_override_position(overrides@, command@, i as int);
    }
    i
}

/// Works out how the service of a launch description is launched.
pub fn resolve_launch(
    command_args: &CommandArgs,
    overrides: &Vec<LauncherOverride>,
    bin_dir: &str,
    data_dir: &str,
) -> (launch: LaunchSpec)
    ensures
        launch@ == launch_of(command_args@, overrides@, bin_dir@, data_dir@),
{
    let mut own_args = collect_text_items(command_args.args);
    let mut own_env = match command_args.env {
        Some(env) => collect_text_entries(env),
        None => {
            let none: Vec<(String, String)> = Vec::new();
            assert(pairs_view(none@) =~= text_entries(Seq::empty()));
            none
        },
    };
    let at = find_override(overrides, command_args.command.as_str());
    if at < overrides.len() {
        let bundled = &overrides[at];
        let mut program = bin_dir.to_owned();
        program.append("/");
        program.append(bundled.program.as_str());
        let mut cache = data_dir.to_owned();
        cache.append("/");
        cache.append(bundled.cache_directory.as_str());
        let mut args = copy_strings(&bundled.leading_args);
        let ghost lead = strings_view(args@);
        let ghost rest = strings_view(own_args@);
        args.append(&mut own_args);
        assert(strings_view(args@) =~= lead + rest);
        let mut env: Vec<(String, String)> = Vec::new();
        env.push((bundled.cache_variable.clone(), cache));
        let ghost first = pairs_view(env@);
        let ghost others = pairs_view(own_env@);
        env.append(&mut own_env);
        assert(pairs_view(env@) =~= first + others);
        assert(first =~= seq![(bundled.cache_variable@, data_dir@ + "/"@ + bundled.cache_directory@)]);
        LaunchSpec { program, args, env }
    } else {
        LaunchSpec { program: command_args.command.clone(), args: own_args, env: own_env }
    }
}

/// Works out how the service of the entry `config` is launched; nothing
/// where the entry does not describe a launch.
pub fn plan_launch(
    config: &JsonValue,
    overrides: &Vec<LauncherOverride>,
    bin_dir: &str,
    data_dir: &str,
) -> (launch: Option<LaunchSpec>)
    ensures
        match launch {
            Some(spec) => planned_launch(*config, overrides@, bin_dir@, data_dir@) == Some(spec@),
            None => planned_launch(*config, overrides@, bin_dir@, data_dir@) is None,
        },
{
    match extract_command_args(config) {
        Some(command_args) => Some(resolve_launch(&command_args, overrides, bin_dir, data_dir)),
        None => None,
    }
}

/// Why a configuration names no services to start.
#[derive(Debug)]
pub enum ConfigError {
    /// The text is no JSON; the reader's reason is enclosed.
    Unparseable(serde_json::Error),
    /// The document has no object `mcpServers`.
    NoServers,
}

/// The entries of the services that a configuration document names.
pub open spec fn servers_of(document: JsonValue) -> Option<Seq<(String, JsonValue)>> {
    match document.member("mcpServers"@) {
        Some(JsonValue::Object(entries)) => Some(entries@),
        _ => None,
    }
}

/// The entries whose services are to be started, in order.
pub open spec fn startable(entries: Seq<(String, JsonValue)>) -> Seq<(String, JsonValue)> {
    entries.filter(|e: (String, JsonValue)| is_startable(e.1))
}

/// How many of the outcomes are of one kind.
pub open spec fn count_of(outcomes: Seq<bool>, kind: bool) -> nat
    decreases outcomes.len(),
{
    if outcomes.len() == 0 {
        0
    } else {
        count_of(outcomes.drop_last(), kind) + if outcomes.last() == kind {
            1nat
        } else {
            0nat
        }
    }
}

/// How the bring-up of the services went.
#[derive(Debug, Clone, Copy, PartialEq, Eq, Structural)]
pub struct StartupTally {
    pub successful: usize,
    pub failed: usize,
}

/// The member of `document` under `key`, taken out of it.
pub fn take_member(document: JsonValue, key: &str) -> (found: Option<JsonValue>)
    ensures
        found == document.member(key@),
{
    match document {
        JsonValue::Object(entries) => {
            let mut entries = entries;
            let wanted: String = key.to_owned();
            let ghost all = entries@;
            let mut i: usize = 0;
            assert(all.skip(0) =~= all);
            while i < entries.len()
                invariant
                    i <= entries.len(),
                    wanted@ == key@,
                    entries@ == all,
                    document.member(key@) == entry_of(all, key@),
                    entry_of(all, key@) == entry_of(all.skip(i as int), key@),
                decreases entries.len() - i,
            {
                if entries[i].0 == wanted {
                    let (_, value) = entries.remove(i);
                    return Some(value);
                }
                assert(all.skip(i as int).skip(1) =~= all.skip(i + 1));
                i += 1;
            }
            None
        },
        _ => None,
    }
}

/// The entries of `entries` whose services are to be started.
pub fn keep_startable(entries: Vec<(String, JsonValue)>) -> (kept: Vec<(String, JsonValue)>)
    ensures
        kept@ == startable(entries@),
{
    let ghost all = entries@;
    let ghost wanted = |e: (String, JsonValue)| is_startable(e.1);
    let mut kept: Vec<(String, JsonValue)> = Vec::new();
    for entry in it: entries
        invariant
            it.seq() == all,
            wanted == |e: (String, JsonValue)| is_startable(e.1),
            kept@ == all.take(it.index() as int).filter(wanted),
    {
        proof {
            reveal(Seq::filter);
            assert(all.take(it.index() + 1).drop_last() =~= all.take(it.index() as int));
        }
        let status = extract_active_status(&entry.1);
        let skip: bool = match status {
            Some(active) => !active,
            None => false,
        };
        if !skip {
            kept.push(entry);
        }
    }
    assert(all.take(all.len() as int) =~= all);
    kept
}

/// Picks from a configuration document the services to start: `None`
/// where the document has no object `mcpServers`.
pub fn select_startable(document: JsonValue) -> (selected: Option<Vec<(String, JsonValue)>>)
    ensures
        match selected {
            Some(entries) => servers_of(document) is Some && entries@ == startable(
                servers_of(document)->0,
            ),
            None => servers_of(document) is None,
        },
{
    match take_member(document, "mcpServers") {
        Some(JsonValue::Object(entries)) => Some(keep_startable(entries)),
        _ => None,
    }
}

/// Reads a configuration and picks the services to start, each with its
/// entry: every service but those marked `"active": false`.
pub fn run_mcp_commands(config_text: &str) -> (plan: Result<Vec<(String, JsonValue)>, ConfigError>)
    ensures
        match plan {
            Ok(entries) => json_of_text(config_text@) is Some && servers_of(
                json_of_text(config_text@)->0,
            ) is Some && entries@ == startable(servers_of(json_of_text(config_text@)->0)->0),
            Err(ConfigError::Unparseable(_)) => json_of_text(config_text@) is None,
            Err(ConfigError::NoServers) => json_of_text(config_text@) is Some && servers_of(
                json_of_text(config_text@)->0,
            ) is None,
        },
{
    match parse_json_text(config_text) {
        Ok(document) => match select_startable(document) {
            Some(entries) => Ok(entries),
            None => Err(ConfigError::NoServers),
        },
        Err(reason) => Err(ConfigError::Unparseable(reason)),
    }
}

/// Counts how many services came up and how many did not. One that fails
/// does not stop the others from being counted.
pub fn tally_startup(outcomes: &Vec<bool>) -> (tally: StartupTally)
    ensures
        tally.successful == count_of(outcomes@, true),
        tally.failed == count_of(outcomes@, false),
        tally.successful + tally.failed == outcomes@.len(),
{
    let mut successful: usize = 0;
    let mut failed: usize = 0;
    let mut i: usize = 0;
    while i < outcomes.len()
        invariant
            i <= outcomes.len(),
            successful == count_of(outcomes@.take(i as int), true),
            failed == count_of(outcomes@.take(i as int), false),
            successful + failed == i,
        decreases outcomes.len() - i,
    {
        proof {
            assert(outcomes@.take(i + 1).drop_last() =~= outcomes@.take(i as int));
        }
        if outcomes[i] {
            successful += 1;
        } else {
            failed += 1;
        }
        i += 1;
    }
    assert(outcomes@.take(outcomes.len() as int) =~= outcomes@);
    StartupTally { successful, failed }
}

} // verus!
