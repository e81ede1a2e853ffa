use rustagent::platform::{
    c_compiler, config_dir, cpp_compiler, go_runner, java_compiler, java_runtime, node_runner,
    open_command, osc7_script, osc7_script_name, python_command, rust_compiler, terminal_env,
    terminal_shell, terminal_shell_args, ts_runner, EnvVar, TargetOs,
};

#[test]
fn shells() {
    assert_eq!(terminal_shell(TargetOs::Windows), "powershell.exe");
    assert_eq!(terminal_shell(TargetOs::OtherUnix), "bash");
    assert_eq!(terminal_shell(TargetOs::MacOs), "bash");
}

#[test]
fn shell_args_drop_empty_entries() {
    assert_eq!(
        terminal_shell_args(TargetOs::OtherUnix, "/tmp/rustagent/osc7.bash"),
        vec!["--init-file", "/tmp/rustagent/osc7.bash"]
    );
    assert_eq!(
        terminal_shell_args(TargetOs::Windows, "C:\\t\\osc7.ps1"),
        vec!["-NoExit", "-ExecutionPolicy", "Bypass", "-File", "C:\\t\\osc7.ps1"]
    );
    assert_eq!(terminal_shell_args(TargetOs::OtherUnix, ""), vec!["--init-file"]);
}

#[test]
fn init_scripts() {
    assert_eq!(osc7_script_name(TargetOs::Windows), "osc7.ps1");
    assert_eq!(osc7_script_name(TargetOs::MacOs), "osc7.bash");
    assert!(osc7_script(TargetOs::Windows).contains("function prompt"));
    assert!(osc7_script(TargetOs::OtherUnix).contains("PROMPT_COMMAND=\"__rustagent_osc7"));
}

#[test]
fn environment() {
    assert!(terminal_env(TargetOs::Windows).is_empty());
    assert_eq!(
        terminal_env(TargetOs::OtherUnix),
        vec![("TERM", "xterm-256color"), ("COLORTERM", "truecolor"), ("LANG", "en_GB.UTF-8")]
    );
}

#[test]
fn commands() {
    assert_eq!(python_command(TargetOs::Windows), "python");
    assert_eq!(python_command(TargetOs::MacOs), "python3");
    assert_eq!(open_command(TargetOs::Windows, "a b.txt"), "start \"\" \"a b.txt\"\r\n");
    assert_eq!(open_command(TargetOs::MacOs, "x"), "open \"x\"\n");
    assert_eq!(open_command(TargetOs::OtherUnix, "x"), "xdg-open \"x\"\n");
    assert_eq!(c_compiler(), "gcc");
    assert_eq!(cpp_compiler(), "g++");
    assert_eq!(java_compiler(), "javac");
    assert_eq!(java_runtime(), "java");
    assert_eq!(go_runner(), "go");
    assert_eq!(node_runner(), "node");
    assert_eq!(ts_runner(), "npx ts-node");
    assert_eq!(rust_compiler(), "rustc");
}

#[test]
fn configuration_directory() {
    let p = config_dir(TargetOs::Windows, true, true, true);
    assert_eq!(p.base, Some(EnvVar::AppData));
    assert_eq!(p.segments, vec!["rustagent"]);
    let p = config_dir(TargetOs::Windows, false, true, true);
    assert_eq!(p.base, None);
    assert_eq!(p.segments, vec![".rustagent"]);
    let p = config_dir(TargetOs::MacOs, false, true, false);
    assert_eq!(p.base, Some(EnvVar::Home));
    assert_eq!(p.segments, vec!["Library", "Application Support", "rustagent"]);
    let p = config_dir(TargetOs::OtherUnix, false, true, true);
    assert_eq!(p.base, Some(EnvVar::XdgConfigHome));
    assert_eq!(p.segments, vec!["rustagent"]);
    let p = config_dir(TargetOs::OtherUnix, false, true, false);
    assert_eq!(p.base, Some(EnvVar::Home));
    assert_eq!(p.segments, vec![".config", "rustagent"]);
    let p = config_dir(TargetOs::OtherUnix, true, false, false);
    assert_eq!(p.base, None);
}
