//! Per-platform shell, toolchain and configuration-directory choices.
//!
//! The target system is an explicit argument: the caller states which kind of
//! system the program runs on, and each function gives that system's answer.
use vstd::prelude::*;

verus! {

/// The kinds of operating system the application distinguishes.
#[derive(Clone, Copy, Debug, PartialEq, Eq, Structural)]
pub enum TargetOs {
    /// Microsoft Windows.
    Windows,
    /// Apple macOS.
    MacOs,
    /// Linux and the other Unix systems.
    OtherUnix,
}

/// The shell used for the integrated terminal on `os`.
pub open spec fn terminal_shell_spec(os: TargetOs) -> Seq<char> {
    if os is Windows {
        "powershell.exe"@
    } else {
        "bash"@
    }
}

/// The shell used to launch the integrated terminal: PowerShell on Windows,
/// bash everywhere else.
pub fn terminal_shell(os: TargetOs) -> (shell: &'static str)
    ensures
        shell@ == terminal_shell_spec(os),
{
    match os {
        TargetOs::Windows => "powershell.exe",
        _ => "bash",
    }
}

/// The arguments that make the terminal's shell report its working directory
/// (OSC 7) at each prompt, before empty ones are dropped; `init_file` is the
/// path of the generated initialisation script.
pub open spec fn shell_arg_candidates(os: TargetOs, init_file: Seq<char>) -> Seq<Seq<char>> {
    if os is Windows {
        seq!["-NoExit"@, "-ExecutionPolicy"@, "Bypass"@, "-File"@, init_file]
    } else {
        seq!["--init-file"@, init_file, Seq::empty(), Seq::empty(), Seq::empty()]
    }
}

/// The non-empty texts of `items`, in order.
pub open spec fn non_empty_texts(items: Seq<Seq<char>>) -> Seq<Seq<char>>
    decreases items.len(),
{
    if items.len() == 0 {
        Seq::empty()
    } else {
        let earlier = non_empty_texts(items.drop_last());
        if items.last().len() > 0 {
            earlier.push(items.last())
        } else {
            earlier
        }
    }
}

/// The views of a list of strings.
pub open spec fn string_views(v: Seq<String>) -> Seq<Seq<char>> {
    v.map_values(|s: String| s@)
}

/// Extra command-line arguments for the terminal's shell so that it reports
/// its working directory via OSC 7 at each prompt: PowerShell runs the
/// script `init_file` with the execution policy bypassed; bash uses it as its
/// init file. Empty arguments are dropped.
pub fn terminal_shell_args(os: TargetOs, init_file: &str) -> (args: Vec<String>)
    ensures
        string_views(args@) == non_empty_texts(shell_arg_candidates(os, init_file@)),
{
    let mut candidates: Vec<String> = Vec::new();
    match os {
        TargetOs::Windows => {
            candidates.push(String::from_str("-NoExit"));
            candidates.push(String::from_str("-ExecutionPolicy"));
            candidates.push(String::from_str("Bypass"));
            candidates.push(String::from_str("-File"));
            candidates.push(String::from_str(init_file));
        },
        _ => {
            candidates.push(String::from_str("--init-file"));
            candidates.push(String::from_str(init_file));
            candidates.push(String::new());
            candidates.push(String::new());
            candidates.push(String::new());
        },
    }
    proof {
        let expected = shell_arg_candidates(os, init_file@);
        assert(string_views(candidates@).len() == expected.len());
        assert forall|k: int| 0 <= k < expected.len() implies string_views(candidates@)[k]
            == expected[k] by {}
        assert(string_views(candidates@) =~= expected);
    }
    let ghost all = string_views(candidates@);
    let mut args: Vec<String> = Vec::new();
    let mut i: usize = 0;
    while i < candidates.len()
        invariant
            i <= candidates@.len(),
            all == string_views(candidates@),
            string_views(args@) == non_empty_texts(all.take(i as int)),
        decreases candidates@.len() - i,
    {
        proof {
            assert(all.take(i + 1).drop_last() =~= all.take(i as int));
        }
        let c = &candidates[i];
        if c.as_str().unicode_len() > 0 {
            let ghost before = args@;
            args.push(c.clone());
            proof {
                assert(string_views(args@) =~= string_views(before).push(c@));
            }
        }
        i = i + 1;
    }
    proof {
        assert(all.take(all.len() as int) =~= all);
    }
    args
}

/// The name of the generated OSC 7 initialisation script.
pub open spec fn osc7_script_name_spec(os: TargetOs) -> Seq<char> {
    if os is Windows {
        "osc7.ps1"@
    } else {
        "osc7.bash"@
    }
}

/// The file name of the shell initialisation script that makes the shell
/// report its working directory via OSC 7 (it lives in `rustagent` under the
/// temporary directory).
pub fn osc7_script_name(os: TargetOs) -> (name: &'static str)
    ensures
        name@ == osc7_script_name_spec(os),
{
    match os {
        TargetOs::Windows => "osc7.ps1",
        _ => "osc7.bash",
    }
}

/// The PowerShell OSC 7 initialisation script.
pub open spec fn powershell_osc7_script() -> Seq<char> {
    r#"# rustagent fichier d'initialisation OSC 7 pour PowerShell.
function prompt {
    $p = $PWD.Path.Replace('\', '/').Replace(' ', '%20')
    $esc = [char]27
    $bel = [char]7
    $host.UI.Write("$esc]7;file:///$p$bel")
    "PS $PWD> "
}
Clear-Host
"#@
}

/// The bash OSC 7 initialisation script: it keeps the user's `.bashrc` and
/// adds a prompt command that emits the percent-encoded working directory.
pub open spec fn bash_osc7_script() -> Seq<char> {
    r#"# rustagent fichier d'initialisation OSC 7.
# Préserve les personnalisations bash normales de l'utilisateur.
if [ -f "$HOME/.bashrc" ]; then
    . "$HOME/.bashrc"
fi

# Émet le répertoire de travail courant via OSC 7 afin que l'application puisse le suivre.
__rustagent_osc7() {
    local encoded="" c
    local i
    for ((i = 0; i < ${#PWD}; i++)); do
        c="${PWD:i:1}"
        case "$c" in
            [a-zA-Z0-9/._~-]) encoded+="$c" ;;
            *) printf -v c '%%%02X' "'$c"; encoded+="$c" ;;
        esac
    done
    printf '\033]7;file://%s%s\007' "${HOSTNAME:-localhost}" "$encoded"
}
PROMPT_COMMAND="__rustagent_osc7${PROMPT_COMMAND:+;$PROMPT_COMMAND}"
"#@
}

/// The content of the OSC 7 initialisation script for the system's shell.
pub fn osc7_script(os: TargetOs) -> (content: &'static str)
    ensures
        content@ == if os is Windows {
            powershell_osc7_script()
        } else {
            bash_osc7_script()
        },
{
    match os {
        TargetOs::Windows => r#"# rustagent fichier d'initialisation OSC 7 pour PowerShell.
function prompt {
    $p = $PWD.Path.Replace('\', '/').Replace(' ', '%20')
    $esc = [char]27
    $bel = [char]7
    $host.UI.Write("$esc]7;file:///$p$bel")
    "PS $PWD> "
}
Clear-Host
"#,
        _ => r#"# rustagent fichier d'initialisation OSC 7.
# Préserve les personnalisations bash normales de l'utilisateur.
if [ -f "$HOME/.bashrc" ]; then
    . "$HOME/.bashrc"
fi

# Émet le répertoire de travail courant via OSC 7 afin que l'application puisse le suivre.
__rustagent_osc7() {
    local encoded="" c
    local i
    for ((i = 0; i < ${#PWD}; i++)); do
        c="${PWD:i:1}"
        case "$c" in
            [a-zA-Z0-9/._~-]) encoded+="$c" ;;
            *) printf -v c '%%%02X' "'$c"; encoded+="$c" ;;
        esac
    done
    printf '\033]7;file://%s%s\007' "${HOSTNAME:-localhost}" "$encoded"
}
PROMPT_COMMAND="__rustagent_osc7${PROMPT_COMMAND:+;$PROMPT_COMMAND}"
"#,
    }
}

/// The views of a list of string pairs.
pub open spec fn pair_views(v: Seq<(&'static str, &'static str)>) -> Seq<(Seq<char>, Seq<char>)> {
    v.map_values(|p: (&'static str, &'static str)| (p.0@, p.1@))
}

/// Environment variables to set on the terminal's shell: the terminal type,
/// true colour and an UTF-8 locale on Unix systems, none on Windows.
pub fn terminal_env(os: TargetOs) -> (env: Vec<(&'static str, &'static str)>)
    ensures
        pair_views(env@) == if os is Windows {
            Seq::<(Seq<char>, Seq<char>)>::empty()
        } else {
            seq![
                ("TERM"@, "xterm-256color"@),
                ("COLORTERM"@, "truecolor"@),
                ("LANG"@, "en_GB.UTF-8"@),
            ]
        },
{
    let mut env: Vec<(&'static str, &'static str)> = Vec::new();
    match os {
        TargetOs::Windows => {},
        _ => {
            env.push(("TERM", "xterm-256color"));
            env.push(("COLORTERM", "truecolor"));
            env.push(("LANG", "en_GB.UTF-8"));
        },
    }
    proof {
        if os is Windows {
            assert(pair_views(env@) =~= Seq::<(Seq<char>, Seq<char>)>::empty());
        } else {
            assert(pair_views(env@) =~= seq![
                ("TERM"@, "xterm-256color"@),
                ("COLORTERM"@, "truecolor"@),
                ("LANG"@, "en_GB.UTF-8"@),
            ]);
        }
    }
    env
}

/// The Python interpreter's command: `python` on Windows, `python3` elsewhere.
pub fn python_command(os: TargetOs) -> (command: &'static str)
    ensures
        command@ == if os is Windows {
            "python"@
        } else {
            "python3"@
        },
{
    match os {
        TargetOs::Windows => "python",
        _ => "python3",
    }
}

/// The terminal command that opens `file` with its default application.
pub open spec fn open_command_text(os: TargetOs, file: Seq<char>) -> Seq<char> {
    match os {
        TargetOs::Windows => "start \"\" \""@ + file + "\"\r\n"@,
        TargetOs::MacOs => "open \""@ + file + "\"\n"@,
        TargetOs::OtherUnix => "xdg-open \""@ + file + "\"\n"@,
    }
}

/// Builds the command that opens a file with its default application:
/// `start "" "file"` on Windows, `open "file"` on macOS, `xdg-open "file"`
/// elsewhere, each ended as a terminal line.
pub fn open_command(os: TargetOs, file: &str) -> (command: String)
    ensures
        command@ == open_command_text(os, file@),
{
    let (head, tail) = match os {
        TargetOs::Windows => ("start \"\" \"", "\"\r\n"),
        TargetOs::MacOs => ("open \"", "\"\n"),
        TargetOs::OtherUnix => ("xdg-open \"", "\"\n"),
    };
    let mut command = String::from_str(head);
    command.append(file);
    command.append(tail);
    command
}

/// The C compiler's command.
pub fn c_compiler() -> (command: &'static str)
    ensures
        command@ == "gcc"@,
{
    "gcc"
}

/// The C++ compiler's command.
pub fn cpp_compiler() -> (command: &'static str)
    ensures
        command@ == "g++"@,
{
    "g++"
}

/// The Java compiler's command.
pub fn java_compiler() -> (command: &'static str)
    ensures
        command@ == "javac"@,
{
    "javac"
}

/// The Java runtime's command.
pub fn java_runtime() -> (command: &'static str)
    ensures
        command@ == "java"@,
{
    "java"
}

/// The Go runner's command.
pub fn go_runner() -> (command: &'static str)
    ensures
        command@ == "go"@,
{
    "go"
}

/// The Node.js runner's command.
pub fn node_runner() -> (command: &'static str)
    ensures
        command@ == "node"@,
{
    "node"
}

/// The TypeScript runner's command (through ts-node).
pub fn ts_runner() -> (command: &'static str)
    ensures
        command@ == "npx ts-node"@,
{
    "npx ts-node"
}

/// The Rust compiler's command.
pub fn rust_compiler() -> (command: &'static str)
    ensures
        command@ == "rustc"@,
{
    "rustc"
}

/// The environment variables that may locate the configuration directory.
#[derive(Clone, Copy, Debug, PartialEq, Eq, Structural)]
pub enum EnvVar {
    /// `APPDATA`.
    AppData,
    /// `HOME`.
    Home,
    /// `XDG_CONFIG_HOME`.
    XdgConfigHome,
}

/// Where the configuration directory lies: under the value of an
/// environment variable, or (without one) under the current directory, then
/// down the path segments.
pub struct ConfigDirPlan {
    pub base: Option<EnvVar>,
    pub segments: Vec<&'static str>,
}

/// The views of a list of path segments.
pub open spec fn segment_views(v: Seq<&'static str>) -> Seq<Seq<char>> {
    v.map_values(|s: &'static str| s@)
}

/// The configuration directory's location, given which of the environment
/// variables `APPDATA`, `HOME` and `XDG_CONFIG_HOME` are set.
pub open spec fn config_dir_location(
    os: TargetOs,
    has_appdata: bool,
    has_home: bool,
    has_xdg_config_home: bool,
) -> (Option<EnvVar>, Seq<Seq<char>>) {
    let fallback = (None, seq![".rustagent"@]);
    match os {
        TargetOs::Windows => if has_appdata {
            (Some(EnvVar::AppData), seq!["rustagent"@])
        } else {
            fallback
        },
        TargetOs::MacOs => if has_home {
            (Some(EnvVar::Home), seq!["Library"@, "Application Support"@, "rustagent"@])
        } else {
            fallback
        },
        TargetOs::OtherUnix => if has_xdg_config_home {
            (Some(EnvVar::XdgConfigHome), seq!["rustagent"@])
        } else if has_home {
            (Some(EnvVar::Home), seq![".config"@, "rustagent"@])
        } else {
            fallback
        },
    }
}

/// The directory where the application stores its configuration files:
/// `%APPDATA%\rustagent` on Windows, `$HOME/Library/Application Support/rustagent`
/// on macOS, `$XDG_CONFIG_HOME/rustagent` or `$HOME/.config/rustagent`
/// elsewhere; `.rustagent` in the current directory when the variable is unset.
pub fn config_dir(os: TargetOs, has_appdata: bool, has_home: bool, has_xdg_config_home: bool) -> (plan:
    ConfigDirPlan)
    ensures
        (plan.base, segment_views(plan.segments@)) == config_dir_location(
            os,
            has_appdata,
            has_home,
            has_xdg_config_home,
        ),
{
    let mut segments: Vec<&'static str> = Vec::new();
    let base = match os {
        TargetOs::Windows if has_appdata => {
            segments.push("rustagent");
            Some(EnvVar::AppData)
        },
        TargetOs::MacOs if has_home => {
            segments.push("Library");
            segments.push("Application Support");
            segments.push("rustagent");
            Some(EnvVar::Home)
        },
        TargetOs::OtherUnix if has_xdg_config_home => {
            segments.push("rustagent");
            Some(EnvVar::XdgConfigHome)
        },
        TargetOs::OtherUnix if has_home => {
            segments.push(".config");
            segments.push("rustagent");
            Some(EnvVar::Home)
        },
        _ => {
            segments.push(".rustagent");
            None
        },
    };
    let plan = ConfigDirPlan { base, segments };
    proof {
        assert(segment_views(plan.segments@) =~= config_dir_location(
            os,
            has_appdata,
            has_home,
            has_xdg_config_home,
        ).1);
    }
    plan
}

/// The shell arguments on each system: every system but Windows runs bash
/// and gets `--init-file` and the init file; only Windows gets the
/// PowerShell flags before the init file. An empty init-file path is left
/// out. Whenever the shell is bash, the arguments are bash's.
pub proof fn lemma_shell_args_per_system(os: TargetOs, init_file: Seq<char>)
    ensures
        !(os is Windows) ==> non_empty_texts(shell_arg_candidates(os, init_file)) == if init_file.len()
            > 0 {
            seq!["--init-file"@, init_file]
        } else {
            seq!["--init-file"@]
        },
        os is Windows ==> non_empty_texts(shell_arg_candidates(os, init_file)) == if init_file.len()
            > 0 {
            seq!["-NoExit"@, "-ExecutionPolicy"@, "Bypass"@, "-File"@, init_file]
        } else {
            seq!["-NoExit"@, "-ExecutionPolicy"@, "Bypass"@, "-File"@]
        },
        terminal_shell_spec(os) == "bash"@ ==> non_empty_texts(
            shell_arg_candidates(os, init_file),
        )[0] == "--init-file"@,
        non_empty_texts(shell_arg_candidates(TargetOs::MacOs, init_file)) == non_empty_texts(
            shell_arg_candidates(TargetOs::OtherUnix, init_file),
        ),
{
    reveal_strlit("--init-file");
    reveal_strlit("-NoExit");
    reveal_strlit("-ExecutionPolicy");
    reveal_strlit("Bypass");
    reveal_strlit("-File");
    reveal_strlit("bash");
    reveal_strlit("powershell.exe");
    reveal_with_fuel(non_empty_texts, 6);
    let c = shell_arg_candidates(os, init_file);
    assert(c.drop_last().drop_last().drop_last().drop_last().drop_last() =~= Seq::<Seq<char>>::empty());
    assert(c.drop_last().drop_last().drop_last().drop_last() =~= seq![c[0]]);
    assert(c.drop_last().drop_last().drop_last() =~= seq![c[0], c[1]]);
    assert(c.drop_last().drop_last() =~= seq![c[0], c[1], c[2]]);
    assert(c.drop_last() =~= seq![c[0], c[1], c[2], c[3]]);
    assert("bash"@.len() != "powershell.exe"@.len());
    if !(os is Windows) {
        if init_file.len() > 0 {
            assert(non_empty_texts(c) =~= seq!["--init-file"@, init_file]);
        } else {
            assert(non_empty_texts(c) =~= seq!["--init-file"@]);
        }
    } else {
        if init_file.len() > 0 {
            assert(non_empty_texts(c) =~= seq!["-NoExit"@, "-ExecutionPolicy"@, "Bypass"@, "-File"@, init_file]);
        } else {
            assert(non_empty_texts(c) =~= seq!["-NoExit"@, "-ExecutionPolicy"@, "Bypass"@, "-File"@]);
        }
    }
}

/// Where each system keeps the configuration directory: Windows reads only
/// `APPDATA` (`%APPDATA%\rustagent`); macOS reads only `HOME`
/// (`$HOME/Library/Application Support/rustagent`), whatever `APPDATA` and
/// `XDG_CONFIG_HOME` say; other Unix systems read `XDG_CONFIG_HOME`
/// (`$XDG_CONFIG_HOME/rustagent`), then `HOME` (`$HOME/.config/rustagent`).
/// Without the variable read, it is `.rustagent`. Each variable is used only
/// on the systems that read it, and only when it is set.
pub proof fn lemma_config_dir_per_system(
    os: TargetOs,
    has_appdata: bool,
    has_home: bool,
    has_xdg_config_home: bool,
    other_appdata: bool,
    other_xdg: bool,
)
    ensures
        ({
            let loc = config_dir_location(os, has_appdata, has_home, has_xdg_config_home);
            let fallback = (None::<EnvVar>, seq![".rustagent"@]);
            &&& os is MacOs ==> loc == if has_home {
                (Some(EnvVar::Home), seq!["Library"@, "Application Support"@, "rustagent"@])
            } else {
                fallback
            }
            &&& os is MacOs ==> loc == config_dir_location(os, other_appdata, has_home, other_xdg)
            &&& os is Windows ==> loc == if has_appdata {
                (Some(EnvVar::AppData), seq!["rustagent"@])
            } else {
                fallback
            }
            &&& os is OtherUnix ==> loc == if has_xdg_config_home {
                (Some(EnvVar::XdgConfigHome), seq!["rustagent"@])
            } else if has_home {
                (Some(EnvVar::Home), seq![".config"@, "rustagent"@])
            } else {
                fallback
            }
            &&& loc.0 == Some(EnvVar::XdgConfigHome) ==> os is OtherUnix && has_xdg_config_home
            &&& loc.0 == Some(EnvVar::AppData) ==> os is Windows && has_appdata
            &&& loc.0 == Some(EnvVar::Home) ==> !(os is Windows) && has_home
        }),
{
}

} // verus!
