use vstd::prelude::*;

verus! {

/// Log severities the shell can ask the host's logging facility for.
#[derive(Clone, Copy, PartialEq, Eq, Structural, Debug)]
pub enum LogLevel {
    Error,
    Warn,
    Info,
    Debug,
    Trace,
}

/// What the shell does before entering the host's run loop.
#[derive(Clone, Copy, PartialEq, Eq, Structural, Debug)]
pub struct StartupConfig {
    /// Whether a process-scoped logger is attached before any command
    /// becomes callable.
    pub attach_logger: bool,
    /// Minimum severity the logger lets through when it is attached.
    pub log_level: LogLevel,
}

/// The startup decision: a logger is attached exactly in debug builds, at
/// Info level; release builds attach none. A failed attach is a fatal setup
/// error, so the flag also says when such an error can arise at all.
pub fn startup_config(debug_build: bool) -> (c: StartupConfig)
    ensures
        c.attach_logger == debug_build,
        c.log_level == LogLevel::Info,
{
    StartupConfig { attach_logger: debug_build, log_level: LogLevel::Info }
}

/// The shell's two remote-invocable commands.
#[derive(Clone, Copy, PartialEq, Eq, Structural, Debug)]
pub enum CommandKind {
    SetOpacity,
    SetAlwaysOnTop,
}

/// The names under which the shell's commands are registered with the host's
/// invocation dispatcher.
pub open spec fn required_command_names() -> Seq<Seq<char>> {
    seq!["set_opacity"@, "set_always_on_top"@]
}

/// The command names, in registration order, for handing to the dispatcher.
pub fn command_names() -> (v: Vec<String>)
    ensures
        v@.map_values(|s: String| s@) == required_command_names(),
{
    let mut v: Vec<String> = Vec::new();
    v.push("set_opacity".to_owned());
    v.push("set_always_on_top".to_owned());
    proof {
        assert(v@.map_values(|s: String| s@) =~= required_command_names());
    }
    v
}

/// The dispatch table: which command a registered name invokes.
pub open spec fn command_for_name_spec(name: Seq<char>) -> Option<CommandKind> {
    if name == "set_opacity"@ {
        Some(CommandKind::SetOpacity)
    } else if name == "set_always_on_top"@ {
        Some(CommandKind::SetAlwaysOnTop)
    } else {
        None
    }
}

/// Looks a registered name up in the dispatch table.
pub fn command_for_name(name: &String) -> (r: Option<CommandKind>)
    ensures
        r == command_for_name_spec(name@),
{
    if *name == "set_opacity".to_owned() {
        Some(CommandKind::SetOpacity)
    } else if *name == "set_always_on_top".to_owned() {
        Some(CommandKind::SetAlwaysOnTop)
    } else {
        None
    }
}

/// A registry is valid when every registered name is a required command name,
/// every required name is registered, and no name is registered twice.
pub open spec fn registry_valid(names: Seq<Seq<char>>) -> bool {
    &&& forall|i: int|
        0 <= i < names.len() ==> required_command_names().contains(#[trigger] names[i])
    &&& forall|j: int|
        0 <= j < required_command_names().len()
            ==> names.contains(#[trigger] required_command_names()[j])
    &&& forall|i: int, j: int| 0 <= i < j < names.len() ==> names[i] != names[j]
}

/// Startup validation of the dispatcher's registry: both command names must
/// be registered, once each, and nothing else may be.
pub fn validate_registry(registered: &Vec<String>) -> (r: Result<(), String>)
    ensures
        (r is Ok) <==> registry_valid(registered@.map_values(|s: String| s@)),
        r matches Err(m) ==> m@ == "invalid command registry"@,
{
    let opacity_name = "set_opacity".to_owned();
    let on_top_name = "set_always_on_top".to_owned();
    let ghost names = registered@.map_values(|s: String| s@);
    proof {
        reveal_strlit("set_opacity");
        reveal_strlit("set_always_on_top");
        assert("set_opacity"@.len() == 11);
        assert("set_always_on_top"@.len() == 17);
    }
    let ok = registered.len() == 2 && ((registered[0] == opacity_name
        && registered[1] == on_top_name) || (registered[0] == on_top_name
        && registered[1] == opacity_name));
    if ok {
        proof {
            assert(names.len() == 2);
            assert(names[0] == registered@[0]@ && names[1] == registered@[1]@);
            assert(required_command_names().contains(names[0])) by {
                if names[0] == "set_opacity"@ {
                    assert(required_command_names()[0] == names[0]);
                } else {
                    assert(required_command_names()[1] == names[0]);
                }
            }
            assert(required_command_names().contains(names[1])) by {
                if names[1] == "set_opacity"@ {
                    assert(required_command_names()[0] == names[1]);
                } else {
                    assert(required_command_names()[1] == names[1]);
                }
            }
            assert(names.contains("set_opacity"@)) by {
                if names[0] == "set_opacity"@ {
                } else {
                    assert(names[1] == "set_opacity"@);
                }
            }
            assert(names.contains("set_always_on_top"@)) by {
                if names[0] == "set_always_on_top"@ {
                } else {
                    assert(names[1] == "set_always_on_top"@);
                }
            }
        }
        Ok(())
    } else {
        proof {
            if registry_valid(names) {
                assert(required_command_names()[0] == "set_opacity"@);
                assert(required_command_names()[1] == "set_always_on_top"@);
                assert(names.contains("set_opacity"@));
                assert(names.contains("set_always_on_top"@));
                let i = choose|i: int| 0 <= i < names.len() && names[i] == "set_opacity"@;
                let j = choose|j: int|
                    0 <= j < names.len() && names[j] == "set_always_on_top"@;
                assert(names[i] != names[j]);
                assert(names.len() >= 2);
                if names.len() > 2 {
                    assert(required_command_names().contains(names[0]));
                    assert(required_command_names().contains(names[1]));
                    assert(required_command_names().contains(names[2]));
                    assert(false);
                }
                assert(names.len() == 2);
                assert(names[0] == registered@[0]@ && names[1] == registered@[1]@);
                assert(required_command_names().contains(names[0]));
                assert(false);
            }
        }
        Err("invalid command registry".to_owned())
    }
}

/// The diagnostic the process aborts with when the host's run loop returns
/// an error.
pub fn run_failure_message() -> (r: String)
    ensures
        r@ == "error while running tauri application"@,
{
    "error while running tauri application".to_owned()
}

} // verus!
