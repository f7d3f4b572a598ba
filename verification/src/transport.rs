//! What the peer process is started with: its command line and its
//! environment, worked out from the options.

use crate::codec::{encode, encoded};
use crate::errors::{ClaudeSDKError, ErrorValue};
use crate::options::{
    agents_to_json, agents_wire, servers_to_json, servers_wire, ClaudeAgentOptions,
    McpServersConfig, SdkBeta, SettingSource, SystemPromptConfig, ToolsConfig,
};
use crate::text::{concat, decimal, opt_view, u64_to_string, views};
use vstd::prelude::*;
use vstd::string::StringExecFns;

verus! {

/// The size of the read buffer where the options name none: one mebibyte.
pub const DEFAULT_MAX_BUFFER_SIZE: usize = 1048576;

/// A flag and its value.
pub open spec fn flag(name: Seq<char>, value: Seq<char>) -> Seq<Seq<char>> {
    seq![name, value]
}

/// A flag without a value, where it is switched on.
pub open spec fn switch(name: Seq<char>, on: bool) -> Seq<Seq<char>> {
    if on {
        seq![name]
    } else {
        Seq::empty()
    }
}

/// A flag and its value, where there is a value.
pub open spec fn opt_flag(name: Seq<char>, value: Option<Seq<char>>) -> Seq<Seq<char>> {
    match value {
        Some(v) => seq![name, v],
        None => Seq::empty(),
    }
}

/// The flag once for each value, in order.
pub open spec fn each_flag(name: Seq<char>, values: Seq<Seq<char>>) -> Seq<Seq<char>>
    decreases values.len(),
{
    if values.len() == 0 {
        Seq::empty()
    } else {
        each_flag(name, values.drop_last()) + seq![name, values.last()]
    }
}

/// The further flags, in order: two hyphens before each name, and the value
/// after it where it has one.
pub open spec fn extra_flags(extra: Seq<(String, Option<String>)>) -> Seq<Seq<char>>
    decreases extra.len(),
{
    if extra.len() == 0 {
        Seq::empty()
    } else {
        extra_flags(extra.drop_last()) + seq!["--"@ + extra.last().0@] + match extra.last().1 {
            Some(v) => seq![v@],
            None => Seq::empty(),
        }
    }
}

/// The flags of the system prompt: without one, an empty prompt that switches
/// the peer's own off; a text as it is; of a preset only what it appends.
pub open spec fn system_prompt_flags(prompt: Option<SystemPromptConfig>) -> Seq<Seq<char>> {
    match prompt {
        None => flag("--system-prompt"@, ""@),
        Some(SystemPromptConfig::Text(text)) => flag("--system-prompt"@, text@),
        Some(SystemPromptConfig::Preset(preset)) => opt_flag(
            "--append-system-prompt"@,
            opt_view(preset.append),
        ),
    }
}

/// The flags of the tools: each name of a list, or the preset.
pub open spec fn tools_flags(tools: Option<ToolsConfig>) -> Seq<Seq<char>> {
    match tools {
        None => Seq::empty(),
        Some(ToolsConfig::List(list)) => each_flag("--tools"@, views(list@)),
        Some(ToolsConfig::Preset(preset)) => flag("--tools-preset"@, preset.preset@),
    }
}

/// A flag whose value is a document written as JSON text; nothing where the
/// document cannot be written.
pub open spec fn json_flag(name: Seq<char>, doc: crate::json::JsonValue) -> Option<Seq<Seq<char>>> {
    match encoded(doc) {
        Some(text) => Some(flag(name, text)),
        None => None,
    }
}

/// The flags of the tool servers: the path of their file, or the servers
/// written as JSON where there are any.
pub open spec fn servers_flags(servers: McpServersConfig) -> Option<Seq<Seq<char>>> {
    match servers {
        McpServersConfig::Path(path) => Some(flag("--mcp-config"@, path@)),
        McpServersConfig::Servers(list) => if list@.len() > 0 {
            json_flag("--mcp-servers"@, servers_wire(list@))
        } else {
            Some(Seq::empty())
        },
    }
}

/// The names of the setting sources.
pub open spec fn source_names(sources: Seq<SettingSource>) -> Seq<Seq<char>> {
    Seq::new(sources.len(), |i: int| sources[i].wire_name())
}

/// The names of the beta features.
pub open spec fn beta_names(betas: Seq<SdkBeta>) -> Seq<Seq<char>> {
    Seq::new(betas.len(), |i: int| betas[i].wire_name())
}

/// A number as a flag's value, where there is a number.
pub open spec fn opt_number(n: Option<u32>) -> Option<Seq<char>> {
    match n {
        Some(n) => Some(decimal(n as nat)),
        None => None,
    }
}

/// The part of the command line before the tool servers.
pub open spec fn head_flags(o: &ClaudeAgentOptions, streaming: bool) -> Seq<Seq<char>> {
    seq!["--output-format"@, "stream-json"@, "--verbose"@] + (if streaming {
        flag("--input-format"@, "stream-json"@)
    } else {
        Seq::empty()
    }) + system_prompt_flags(o.system_prompt) + opt_flag(
        "--permission-mode"@,
        match o.permission_mode {
            Some(m) => Some(m.wire_name()),
            None => None,
        },
    ) + opt_flag("--model"@, opt_view(o.model)) + opt_flag(
        "--fallback-model"@,
        opt_view(o.fallback_model),
    ) + opt_flag("--max-turns"@, opt_number(o.max_turns)) + opt_flag(
        "--max-budget-usd"@,
        opt_view(o.max_budget_usd),
    ) + opt_flag("--max-thinking-tokens"@, opt_number(o.max_thinking_tokens)) + switch(
        "--continue"@,
        o.continue_conversation,
    ) + opt_flag("--resume"@, opt_view(o.resume)) + switch("--fork-session"@, o.fork_session)
        + each_flag("--allowed-tools"@, views(o.allowed_tools@)) + each_flag(
        "--disallowed-tools"@,
        views(o.disallowed_tools@),
    ) + tools_flags(o.tools)
}

/// The part of the command line between the tool servers and the sandbox.
pub open spec fn middle_flags(o: &ClaudeAgentOptions) -> Seq<Seq<char>> {
    opt_flag("--user"@, opt_view(o.user)) + opt_flag("--settings"@, opt_view(o.settings)) + (
    match o.setting_sources {
        Some(sources) => each_flag("--setting-source"@, source_names(sources@)),
        None => Seq::empty(),
    }) + each_flag("--add-dir"@, views(o.add_dirs@)) + switch(
        "--include-partial-messages"@,
        o.include_partial_messages,
    ) + switch("--enable-file-checkpointing"@, o.enable_file_checkpointing)
}

/// The end of the command line: the beta features, the further flags, and
/// the prompt of a run that is not streaming.
pub open spec fn tail_flags(o: &ClaudeAgentOptions, streaming: bool, prompt: Option<Seq<char>>) -> Seq<
    Seq<char>,
> {
    each_flag("--beta"@, beta_names(o.betas@)) + extra_flags(o.extra_args@) + (match prompt {
        Some(p) => if streaming {
            Seq::empty()
        } else {
            seq!["--print"@, "--"@, p]
        },
        None => Seq::empty(),
    })
}

/// The flags of the sandbox, where there is one.
pub open spec fn sandbox_flags(o: &ClaudeAgentOptions) -> Option<Seq<Seq<char>>> {
    match o.sandbox {
        Some(s) => json_flag("--sandbox"@, s.wire()),
        None => Some(Seq::empty()),
    }
}

/// The flags of the output format, where there is one.
pub open spec fn output_format_flags(o: &ClaudeAgentOptions) -> Option<Seq<Seq<char>>> {
    match o.output_format {
        Some(f) => json_flag("--output-format-schema"@, f@),
        None => Some(Seq::empty()),
    }
}

/// The flags of the agents, where there are any.
pub open spec fn agents_flags(o: &ClaudeAgentOptions) -> Option<Seq<Seq<char>>> {
    match o.agents {
        Some(a) => json_flag("--agents"@, agents_wire(a@)),
        None => Some(Seq::empty()),
    }
}

/// The configuration error of a part that cannot be written as JSON.
pub open spec fn config_error(message: Seq<char>) -> ErrorValue {
    ErrorValue::Configuration { message }
}

/// The command line of the peer for the given options. The flags stand in a
/// fixed order. Where a part cannot be written as JSON, the first such part,
/// in the order of the command line, gives a configuration error.
pub open spec fn args_of(o: &ClaudeAgentOptions, streaming: bool, prompt: Option<Seq<char>>) -> Result<
    Seq<Seq<char>>,
    ErrorValue,
> {
    match (servers_flags(o.mcp_servers), sandbox_flags(o), output_format_flags(o), agents_flags(o)) {
        (None, _, _, _) => Err(config_error("Failed to serialize MCP servers"@)),
        (Some(_), None, _, _) => Err(config_error("Failed to serialize sandbox settings"@)),
        (Some(_), Some(_), None, _) => Err(config_error("Failed to serialize output format"@)),
        (Some(_), Some(_), Some(_), None) => Err(config_error("Failed to serialize agents"@)),
        (Some(servers), Some(sandbox), Some(format), Some(agents)) => Ok(
            head_flags(o, streaming) + servers + middle_flags(o) + sandbox + format + agents
                + tail_flags(o, streaming, prompt),
        ),
    }
}

fn push_flag(args: &mut Vec<String>, name: &str, value: &str)
    ensures
        views(final(args)@) == views(old(args)@) + flag(name@, value@),
{
    args.push(String::from_str(name));
    args.push(String::from_str(value));
    proof {
        assert(views(args@) =~= views(old(args)@) + flag(name@, value@));
    }
}

fn push_switch(args: &mut Vec<String>, name: &str, on: bool)
    ensures
        views(final(args)@) == views(old(args)@) + switch(name@, on),
{
    if on {
        args.push(String::from_str(name));
    }
    proof {
        assert(views(args@) =~= views(old(args)@) + switch(name@, on));
    }
}

fn push_opt_flag(args: &mut Vec<String>, name: &str, value: &Option<String>)
    ensures
        views(final(args)@) == views(old(args)@) + opt_flag(name@, opt_view(*value)),
{
    match value {
        Some(v) => push_flag(args, name, v.as_str()),
        None => {
            proof {
                assert(views(args@) =~= views(old(args)@) + Seq::<Seq<char>>::empty());
            }
        },
    }
}

fn push_opt_number(args: &mut Vec<String>, name: &str, value: Option<u32>)
    ensures
        views(final(args)@) == views(old(args)@) + opt_flag(name@, opt_number(value)),
{
    match value {
        Some(n) => {
            let text = u64_to_string(n as u64);
            push_flag(args, name, text.as_str());
        },
        None => {
            proof {
                assert(views(args@) =~= views(old(args)@) + Seq::<Seq<char>>::empty());
            }
        },
    }
}

fn push_each(args: &mut Vec<String>, name: &str, values: &Vec<String>)
    ensures
        views(final(args)@) == views(old(args)@) + each_flag(name@, views(values@)),
{
    let ghost start = views(args@);
    let ghost all = views(values@);
    let mut i: usize = 0;
    proof {
        assert(all.subrange(0, 0) =~= Seq::empty());
        assert(views(args@) =~= start + each_flag(name@, all.subrange(0, 0)));
    }
    while i < values.len()
        invariant
            0 <= i <= values.len(),
            all == views(values@),
            views(args@) == start + each_flag(name@, all.subrange(0, i as int)),
        decreases values.len() - i,
    {
        let ghost before = views(args@);
        proof {
            let t = all.subrange(0, i as int + 1);
            assert(t.drop_last() =~= all.subrange(0, i as int));
            assert(t.last() == values@[i as int]@);
        }
        push_flag(args, name, values[i].as_str());
        proof {
            assert(views(args@) =~= start + each_flag(name@, all.subrange(0, i as int + 1)));
        }
        i += 1;
    }
    proof {
        assert(all.subrange(0, values.len() as int) =~= all);
    }
}

fn push_sources(args: &mut Vec<String>, sources: &Vec<SettingSource>)
    ensures
        views(final(args)@) == views(old(args)@) + each_flag(
            "--setting-source"@,
            source_names(sources@),
        ),
{
    let mut names: Vec<String> = Vec::new();
    let mut i: usize = 0;
    while i < sources.len()
        invariant
            0 <= i <= sources.len(),
            names@.len() == i,
            forall|k: int| 0 <= k < i ==> (#[trigger] names@[k])@ == sources@[k].wire_name(),
        decreases sources.len() - i,
    {
        names.push(String::from_str(sources[i].as_str()));
        i += 1;
    }
    proof {
        assert(views(names@) =~= source_names(sources@));
    }
    push_each(args, "--setting-source", &names);
}

fn push_betas(args: &mut Vec<String>, betas: &Vec<SdkBeta>)
    ensures
        views(final(args)@) == views(old(args)@) + each_flag("--beta"@, beta_names(betas@)),
{
    let mut names: Vec<String> = Vec::new();
    let mut i: usize = 0;
    while i < betas.len()
        invariant
            0 <= i <= betas.len(),
            names@.len() == i,
            forall|k: int| 0 <= k < i ==> (#[trigger] names@[k])@ == betas@[k].wire_name(),
        decreases betas.len() - i,
    {
        names.push(String::from_str(betas[i].as_str()));
        i += 1;
    }
    proof {
        assert(views(names@) =~= beta_names(betas@));
    }
    push_each(args, "--beta", &names);
}

fn push_extra(args: &mut Vec<String>, extra: &Vec<(String, Option<String>)>)
    ensures
        views(final(args)@) == views(old(args)@) + extra_flags(extra@),
{
    let ghost start = views(args@);
    let mut i: usize = 0;
    proof {
        assert(extra@.subrange(0, 0) =~= Seq::empty());
        assert(views(args@) =~= start + extra_flags(extra@.subrange(0, 0)));
    }
    while i < extra.len()
        invariant
            0 <= i <= extra.len(),
            views(args@) == start + extra_flags(extra@.subrange(0, i as int)),
        decreases extra.len() - i,
    {
        let ghost before = views(args@);
        proof {
            let t = extra@.subrange(0, i as int + 1);
            assert(t.drop_last() =~= extra@.subrange(0, i as int));
            assert(t.last() == extra@[i as int]);
        }
        args.push(concat("--", extra[i].0.as_str()));
        proof {
            assert(views(args@) =~= before + seq!["--"@ + extra@[i as int].0@]);
        }
        let ghost named = views(args@);
        match &extra[i].1 {
            Some(v) => {
                args.push(v.clone());
                proof {
                    assert(views(args@) =~= named + seq![v@]);
                }
            },
            None => {
                proof {
                    assert(views(args@) =~= named + Seq::<Seq<char>>::empty());
                }
            },
        }
        proof {
            let t = extra@.subrange(0, i as int + 1);
            let tail = match extra@[i as int].1 {
                Some(v) => seq![v@],
                None => Seq::<Seq<char>>::empty(),
            };
            assert(extra_flags(t) == extra_flags(t.drop_last()) + seq!["--"@ + t.last().0@] + tail);
            assert(views(args@) =~= start + extra_flags(t));
        }
        i += 1;
    }
    proof {
        assert(extra@.subrange(0, extra.len() as int) =~= extra@);
    }
}

fn push_head(args: &mut Vec<String>, o: &ClaudeAgentOptions, streaming: bool)
    requires
        old(args)@.len() == 0,
    ensures
        views(final(args)@) == head_flags(o, streaming),
{
    args.push(String::from_str("--output-format"));
    args.push(String::from_str("stream-json"));
    args.push(String::from_str("--verbose"));
    proof {
        assert(views(args@) =~= seq!["--output-format"@, "stream-json"@, "--verbose"@]);
    }
    if streaming {
        push_flag(args, "--input-format", "stream-json");
    } else {
        proof {
            assert(views(args@) =~= views(args@) + Seq::<Seq<char>>::empty());
        }
    }
    let ghost before = views(args@);
    match &o.system_prompt {
        None => push_flag(args, "--system-prompt", ""),
        Some(SystemPromptConfig::Text(text)) => push_flag(args, "--system-prompt", text.as_str()),
        Some(SystemPromptConfig::Preset(preset)) => push_opt_flag(
            args,
            "--append-system-prompt",
            &preset.append,
        ),
    }
    assert(views(args@) == before + system_prompt_flags(o.system_prompt));
    let ghost before = views(args@);
    match &o.permission_mode {
        Some(mode) => push_flag(args, "--permission-mode", mode.as_str()),
        None => {
            proof {
                assert(views(args@) =~= before + Seq::<Seq<char>>::empty());
            }
        },
    }
    push_opt_flag(args, "--model", &o.model);
    push_opt_flag(args, "--fallback-model", &o.fallback_model);
    push_opt_number(args, "--max-turns", o.max_turns);
    push_opt_flag(args, "--max-budget-usd", &o.max_budget_usd);
    push_opt_number(args, "--max-thinking-tokens", o.max_thinking_tokens);
    push_switch(args, "--continue", o.continue_conversation);
    push_opt_flag(args, "--resume", &o.resume);
    push_switch(args, "--fork-session", o.fork_session);
    push_each(args, "--allowed-tools", &o.allowed_tools);
    push_each(args, "--disallowed-tools", &o.disallowed_tools);
    let ghost before = views(args@);
    match &o.tools {
        None => {
            proof {
                assert(views(args@) =~= before + Seq::<Seq<char>>::empty());
            }
        },
        Some(ToolsConfig::List(list)) => push_each(args, "--tools", list),
        Some(ToolsConfig::Preset(preset)) => push_flag(
            args,
            "--tools-preset",
            preset.preset.as_str(),
        ),
    }
}

fn push_middle(args: &mut Vec<String>, o: &ClaudeAgentOptions)
    ensures
        views(final(args)@) == views(old(args)@) + middle_flags(o),
{
    let ghost start = views(args@);
    push_opt_flag(args, "--user", &o.user);
    push_opt_flag(args, "--settings", &o.settings);
    let ghost before = views(args@);
    match &o.setting_sources {
        Some(sources) => push_sources(args, sources),
        None => {
            proof {
                assert(views(args@) =~= before + Seq::<Seq<char>>::empty());
            }
        },
    }
    push_each(args, "--add-dir", &o.add_dirs);
    push_switch(args, "--include-partial-messages", o.include_partial_messages);
    push_switch(args, "--enable-file-checkpointing", o.enable_file_checkpointing);
    proof {
        assert(views(args@) =~= start + middle_flags(o));
    }
}

fn push_tail(
    args: &mut Vec<String>,
    o: &ClaudeAgentOptions,
    streaming: bool,
    prompt: &Option<String>,
)
    ensures
        views(final(args)@) == views(old(args)@) + tail_flags(o, streaming, opt_view(*prompt)),
{
    let ghost start = views(args@);
    push_betas(args, &o.betas);
    push_extra(args, &o.extra_args);
    let ghost before = views(args@);
    match prompt {
        Some(p) => {
            if !streaming {
                args.push(String::from_str("--print"));
                args.push(String::from_str("--"));
                args.push(p.clone());
                proof {
                    assert(views(args@) =~= before + seq!["--print"@, "--"@, p@]);
                }
            }
        },
        None => {},
    }
    proof {
        assert(views(args@) =~= start + tail_flags(o, streaming, opt_view(*prompt)));
    }
}

/// Pushes a flag whose value is a document written as JSON text; says so
/// where the document cannot be written, and pushes nothing then.
fn push_json_flag(args: &mut Vec<String>, name: &str, doc: &crate::json::Json) -> (ok: bool)
    ensures
        match json_flag(name@, doc@) {
            Some(flags) => ok && views(final(args)@) == views(old(args)@) + flags,
            None => !ok && final(args)@ == old(args)@,
        },
{
    match encode(doc) {
        Some(text) => {
            push_flag(args, name, text.as_str());
            true
        },
        None => false,
    }
}

/// The command line of the peer for the given options: for a streaming run,
/// or for a run on one prompt.
pub fn build_args(options: &ClaudeAgentOptions, streaming_mode: bool, initial_prompt: &Option<String>) -> (r:
    Result<Vec<String>, ClaudeSDKError>)
    ensures
        match r {
            Ok(args) => args_of(options, streaming_mode, opt_view(*initial_prompt)) == Ok::<
                Seq<Seq<char>>,
                ErrorValue,
            >(views(args@)),
            Err(e) => args_of(options, streaming_mode, opt_view(*initial_prompt)) == Err::<
                Seq<Seq<char>>,
                ErrorValue,
            >(e@),
        },
{
    let mut args: Vec<String> = Vec::new();
    push_head(&mut args, options, streaming_mode);
    let ghost before = views(args@);
    match &options.mcp_servers {
        McpServersConfig::Path(path) => push_flag(&mut args, "--mcp-config", path.as_str()),
        McpServersConfig::Servers(list) => {
            if list.len() > 0 {
                let doc = servers_to_json(list);
                if !push_json_flag(&mut args, "--mcp-servers", &doc) {
                    return Err(ClaudeSDKError::configuration("Failed to serialize MCP servers"));
                }
            } else {
                proof {
                    assert(views(args@) =~= before + Seq::<Seq<char>>::empty());
                }
            }
        },
    }
    assert(views(args@) == before + servers_flags(options.mcp_servers)->0);
    push_middle(&mut args, options);
    let ghost before = views(args@);
    match &options.sandbox {
        Some(sandbox) => {
            let doc = sandbox.to_json();
            if !push_json_flag(&mut args, "--sandbox", &doc) {
                return Err(ClaudeSDKError::configuration("Failed to serialize sandbox settings"));
            }
        },
        None => {
            proof {
                assert(views(args@) =~= before + Seq::<Seq<char>>::empty());
            }
        },
    }
    let ghost before = views(args@);
    match &options.output_format {
        Some(format) => {
            if !push_json_flag(&mut args, "--output-format-schema", format) {
                return Err(ClaudeSDKError::configuration("Failed to serialize output format"));
            }
        },
        None => {
            proof {
                assert(views(args@) =~= before + Seq::<Seq<char>>::empty());
            }
        },
    }
    let ghost before = views(args@);
    match &options.agents {
        Some(agents) => {
            let doc = agents_to_json(agents);
            if !push_json_flag(&mut args, "--agents", &doc) {
                return Err(ClaudeSDKError::configuration("Failed to serialize agents"));
            }
        },
        None => {
            proof {
                assert(views(args@) =~= before + Seq::<Seq<char>>::empty());
            }
        },
    }
    push_tail(&mut args, options, streaming_mode, initial_prompt);
    Ok(args)
}

/// The names and values of the environment, in order.
pub open spec fn pairs_view(pairs: Seq<(String, String)>) -> Seq<(Seq<char>, Seq<char>)> {
    Seq::new(pairs.len(), |i: int| (pairs[i].0@, pairs[i].1@))
}

/// The environment of the peer: what the caller's process has, then what the
/// options set, then the mark of the SDK. A later variable of the same name
/// counts.
pub fn build_env(inherited: &Vec<(String, String)>, options: &ClaudeAgentOptions) -> (r: Vec<
    (String, String),
>)
    ensures
        pairs_view(r@) == pairs_view(inherited@) + pairs_view(options.env@) + seq![
            ("CLAUDE_SDK"@, "true"@),
        ],
{
    let mut env: Vec<(String, String)> = Vec::new();
    let mut i: usize = 0;
    while i < inherited.len()
        invariant
            0 <= i <= inherited.len(),
            pairs_view(env@) == pairs_view(inherited@).subrange(0, i as int),
        decreases inherited.len() - i,
    {
        let ghost before = env@;
        let name = inherited[i].0.clone();
        let value = inherited[i].1.clone();
        env.push((name, value));
        proof {
            assert(pairs_view(env@) =~= pairs_view(before).push((name@, value@)));
            assert(pairs_view(env@) =~= pairs_view(inherited@).subrange(0, i as int + 1));
        }
        i += 1;
    }
    let mut j: usize = 0;
    proof {
        assert(pairs_view(env@) =~= pairs_view(inherited@) + pairs_view(options.env@).subrange(
            0,
            0,
        ));
    }
    while j < options.env.len()
        invariant
            0 <= j <= options.env.len(),
            pairs_view(env@) == pairs_view(inherited@) + pairs_view(options.env@).subrange(
                0,
                j as int,
            ),
        decreases options.env.len() - j,
    {
        let ghost before = env@;
        let name = options.env[j].0.clone();
        let value = options.env[j].1.clone();
        env.push((name, value));
        proof {
            assert(pairs_view(env@) =~= pairs_view(before).push((name@, value@)));
            assert(pairs_view(env@) =~= pairs_view(inherited@) + pairs_view(
                options.env@,
            ).subrange(0, j as int + 1));
        }
        j += 1;
    }
    let ghost before = env@;
    let mark = (String::from_str("CLAUDE_SDK"), String::from_str("true"));
    env.push(mark);
    proof {
        assert(pairs_view(env@) =~= pairs_view(before).push(("CLAUDE_SDK"@, "true"@)));
        assert(pairs_view(options.env@).subrange(0, options.env.len() as int) =~= pairs_view(
            options.env@,
        ));
        assert(pairs_view(env@) =~= pairs_view(inherited@) + pairs_view(options.env@) + seq![
            ("CLAUDE_SDK"@, "true"@),
        ]);
    }
    env
}

/// What the transport of a session is set up with.
#[derive(Debug, Clone)]
pub struct TransportConfig {
    pub args: Vec<String>,
    pub max_buffer_size: usize,
    /// Whether the peer takes its input as a stream of messages; if not, it
    /// runs on the one prompt of its command line.
    pub streaming_mode: bool,
    pub initial_prompt: Option<String>,
    pub cwd: Option<String>,
}

impl TransportConfig {
    /// Whether this is the setup for the given options and prompt: the
    /// command line of the options, streaming where there is no prompt, the
    /// buffer size of the options or the default, and the working directory
    /// of the options.
    pub open spec fn is_setup_for(
        &self,
        options: &ClaudeAgentOptions,
        initial_prompt: Option<String>,
    ) -> bool {
        &&& args_of(options, initial_prompt is None, opt_view(initial_prompt)) == Ok::<
            Seq<Seq<char>>,
            ErrorValue,
        >(views(self.args@))
        &&& self.streaming_mode == (initial_prompt is None)
        &&& self.max_buffer_size == match options.max_buffer_size {
            Some(n) => n,
            None => DEFAULT_MAX_BUFFER_SIZE,
        }
        &&& self.initial_prompt == initial_prompt
        &&& opt_view(self.cwd) == opt_view(options.cwd)
    }

    /// Whether this is the setup for the given options and a prompt of that
    /// text.
    pub open spec fn is_setup_with(&self, options: &ClaudeAgentOptions, prompt: Seq<char>) -> bool {
        &&& args_of(options, false, Some(prompt)) == Ok::<Seq<Seq<char>>, ErrorValue>(
            views(self.args@),
        )
        &&& !self.streaming_mode
        &&& self.max_buffer_size == match options.max_buffer_size {
            Some(n) => n,
            None => DEFAULT_MAX_BUFFER_SIZE,
        }
        &&& opt_view(self.initial_prompt) == Some(prompt)
        &&& opt_view(self.cwd) == opt_view(options.cwd)
    }

    /// The setup for the given options: streaming where no prompt is given.
    pub fn new(options: &ClaudeAgentOptions, initial_prompt: Option<String>) -> (r: Result<
        TransportConfig,
        ClaudeSDKError,
    >)
        ensures
            match r {
                Ok(c) => c.is_setup_for(options, initial_prompt),
                Err(e) => args_of(options, initial_prompt is None, opt_view(initial_prompt))
                    == Err::<Seq<Seq<char>>, ErrorValue>(e@),
            },
    {
        let streaming_mode = initial_prompt.is_none();
        let args = match build_args(options, streaming_mode, &initial_prompt) {
            Ok(args) => args,
            Err(e) => { return Err(e); },
        };
        Ok(
            TransportConfig {
                args,
                max_buffer_size: match options.max_buffer_size {
                    Some(n) => n,
                    None => DEFAULT_MAX_BUFFER_SIZE,
                },
                streaming_mode,
                initial_prompt,
                cwd: match &options.cwd {
                    Some(dir) => Some(dir.clone()),
                    None => None,
                },
            },
        )
    }

    /// Whether the peer takes its input as a stream of messages.
    pub fn is_streaming_mode(&self) -> (r: bool)
        ensures
            r == self.streaming_mode,
    {
        self.streaming_mode
    }
}

} // verus!
