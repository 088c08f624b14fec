use envvars::parser::Captured;
use envvars::unix;
use envvars::windows::{
    add_if_found, add_profile, candidates, context_variables, found_profiles, keys_to_lower_case,
    Launch,
};
use envvars::{get_profiles, EnvError, Profile, ShellSource};
use std::collections::HashMap;

#[test]
fn test_it() {}

#[test]
fn windows_test() {
    let mut vars = HashMap::new();
    vars.insert("windir".to_string(), "C:\\Windows".to_string());
    vars.insert("HOMEDRIVE".to_string(), "C:".to_string());
    let profiles = get_profiles(&ShellSource::WellKnownPaths(vars)).unwrap();
    for p in profiles.iter() {
        println!(
            "{}: {:?}; (envvars: {})",
            p.name,
            p.path,
            p.envvars.as_ref().map(|e| e.len()).unwrap_or(0)
        );
    }
}

#[test]
fn shell_list_skips_missing_shells() {
    let profiles = unix::get("/bin/bash\n/nonexistent/shell\n");
    assert_eq!(profiles.len(), 1);
    assert_eq!(profiles[0].name, "bash");
    assert_eq!(profiles[0].path, "/bin/bash");
    assert!(profiles[0].envvars.is_none());
    assert!(profiles[0].args().is_empty());
}

#[test]
fn discovery_from_shell_list() {
    let source = ShellSource::ShellList("/bin/sh\n\n/nonexistent/shell".to_string());
    let profiles = get_profiles(&source).unwrap();
    assert_eq!(profiles.len(), 1);
    assert_eq!(profiles[0].name, "sh");
}

#[test]
fn unsupported_platform_discovers_nothing() {
    assert!(matches!(
        get_profiles(&ShellSource::Unsupported),
        Err(EnvError::NotSupportedPlatform)
    ));
}

#[test]
fn missing_shell_is_not_found() {
    match Profile::new("/nonexistent/shell", vec!["-c"], None) {
        Err(EnvError::NotFound(p)) => assert_eq!(p, "/nonexistent/shell"),
        other => panic!("unexpected {:?}", other),
    }
}

#[test]
fn profile_named_after_file() {
    let p = Profile::new("/bin/sh", vec!["-l", "-c"], None).unwrap();
    assert_eq!(p.name, "sh");
    assert_eq!(p.path, "/bin/sh");
    assert_eq!(p.args(), &vec!["-l".to_string(), "-c".to_string()]);
    assert!(p.envvars.is_none());
}

#[test]
fn profile_with_explicit_name() {
    let p = Profile::new("/bin/sh", vec![], Some("Shell")).unwrap();
    assert_eq!(p.name, "Shell");
}

#[test]
fn resolve_decides_on_reported_facts() {
    assert!(matches!(
        Profile::resolve("/x/y", vec![], None, false, Some("y".to_string())),
        Err(EnvError::NotFound(_))
    ));
    match Profile::resolve("/", vec![], None, true, None) {
        Err(EnvError::Other(msg)) => assert_eq!(msg, "Found /, but cannot convert path"),
        other => panic!("unexpected {:?}", other),
    }
    let p = Profile::resolve("/x/y", vec!["-c"], None, true, Some("y".to_string())).unwrap();
    assert_eq!(p.name, "y");
    let q = Profile::resolve("/x/y", vec![], Some("Named"), true, None).unwrap();
    assert_eq!(q.name, "Named");
}

#[test]
fn load_sets_variables() {
    let mut p = Profile::new("/bin/sh", vec!["-c"], None).unwrap();
    let out = Captured {
        stdout: br#"{"SHELL":"/bin/sh"}"#.to_vec(),
        stderr: Vec::new(),
    };
    p.load(Ok(out)).unwrap();
    let vars = p.envvars.as_ref().unwrap();
    assert_eq!(vars.get("SHELL").map(|s| s.as_str()), Some("/bin/sh"));
}

#[test]
fn failed_load_keeps_variables() {
    let mut p = Profile::new("/bin/sh", vec!["-c"], None).unwrap();
    let bad = Captured {
        stdout: b"oops".to_vec(),
        stderr: b"boom".to_vec(),
    };
    assert!(matches!(p.load(Ok(bad)), Err(EnvError::Parsing(_, _, _))));
    assert!(p.envvars.is_none());
    let err = std::io::Error::new(std::io::ErrorKind::NotFound, "gone");
    assert!(matches!(
        p.load(Err(EnvError::Executing(err))),
        Err(EnvError::Executing(_))
    ));
    assert!(p.envvars.is_none());
}

#[test]
fn profiles_follow_existence_results() {
    let lower = context();
    let cs = candidates(&lower, &lower, None).unwrap();
    let mut found = vec![false; cs.len()];
    found[1] = true;
    found[3] = true;
    let ps = found_profiles(&cs, &found);
    assert_eq!(ps.len(), 2);
    assert_eq!(ps[0].name, cs[1].name);
    assert_eq!(ps[0].path, cs[1].path);
    assert_eq!(ps[0].args, vec!["-c".to_string()]);
    assert_eq!(ps[1].name, "Command Prompt");
    assert!(ps[1].args.is_empty());
    assert!(found_profiles(&cs, &vec![]).is_empty());
}

#[test]
fn profile_added_only_when_found() {
    let mut list = Vec::new();
    add_if_found(&mut list, "Cygwin", "C:\\cygwin\\bin\\bash.exe", vec!["--login", "-c"], false);
    assert!(list.is_empty());
    add_if_found(&mut list, "Cygwin", "C:\\cygwin\\bin\\bash.exe", vec!["--login", "-c"], true);
    assert_eq!(list.len(), 1);
    assert_eq!(list[0].name, "Cygwin");
    assert_eq!(list[0].path, "C:\\cygwin\\bin\\bash.exe");
    assert_eq!(list[0].args, vec!["--login".to_string(), "-c".to_string()]);
    add_profile(&mut list, "Missing", "/nonexistent/shell", vec![]);
    assert_eq!(list.len(), 1);
    add_profile(&mut list, "Shell", "/bin/sh", vec!["-c"]);
    assert_eq!(list.len(), 2);
    assert_eq!(list[1].name, "Shell");
}

#[test]
fn names_are_lower_cased() {
    let mut vars = HashMap::new();
    vars.insert("PATH".to_string(), "x".to_string());
    vars.insert("HomeDrive".to_string(), "C:".to_string());
    let lower = keys_to_lower_case(&vars);
    assert_eq!(lower.len(), 2);
    assert_eq!(lower.get("path").map(|s| s.as_str()), Some("x"));
    assert_eq!(lower.get("homedrive").map(|s| s.as_str()), Some("C:"));
}

fn context() -> HashMap<String, String> {
    let mut vars = HashMap::new();
    vars.insert("windir".to_string(), "C:\\Windows".to_string());
    vars.insert("homedrive".to_string(), "C:".to_string());
    vars.insert("systemroot".to_string(), "C:\\Windows".to_string());
    vars
}

#[test]
fn windows_candidates_are_listed() {
    let lower = context();
    let mut vars = context();
    vars.insert("ProgramFiles".to_string(), "C:\\Program Files".to_string());
    let cs = candidates(&lower, &vars, Some("C:\\Users\\u")).unwrap();
    let listed: Vec<(&str, &str)> = cs.iter().map(|c| (c.name.as_str(), c.path.as_str())).collect();
    assert_eq!(
        listed,
        vec![
            ("WSL", "C:\\Windows\\System32\\wsl.exe"),
            ("WSL (bash)", "C:\\Windows\\System32\\bash.exe"),
            (
                "Windows PowerShell",
                "C:\\Windows\\System32\\WindowsPowerShell\\v1.0\\powershell.exe"
            ),
            (
                ".NET Core PowerShell Global Tool",
                "C:\\Users\\u\\.dotnet\\tools\\pwsh.exe"
            ),
            ("Command Prompt", "C:\\Windows\\System32\\cmd.exe"),
            ("Cygwin x64", "C:\\cygwin64\\bin\\bash.exe"),
            ("Cygwin", "C:\\cygwin\\bin\\bash.exe"),
            ("bash (MSYS2)", "C:\\msys64\\usr\\bin\\bash.exe"),
            ("GitBash", "C:\\Program Files\\Git\\bin\\bash.exe"),
            ("GitBash", "C:\\Program Files\\Git\\usr\\bin\\bash.exe"),
        ]
    );
    assert_eq!(cs[0].launch, Launch::Command);
    assert_eq!(cs[2].launch, Launch::Plain);
    assert_eq!(cs[5].launch, Launch::Login);
    assert_eq!(cs[9].launch, Launch::LoginInteractive);
}

#[test]
fn windows_candidates_on_wow64() {
    let mut lower = HashMap::new();
    lower.insert("windir".to_string(), "D:\\Win".to_string());
    lower.insert("homedrive".to_string(), "E:".to_string());
    lower.insert("processor_architew6432".to_string(), "AMD64".to_string());
    let cs = candidates(&lower, &HashMap::new(), None).unwrap();
    assert_eq!(cs.len(), 5);
    assert_eq!(cs[0].path, "D:\\Win\\Sysnative\\WindowsPowerShell\\v1.0\\powershell.exe");
    assert_eq!(cs[1].path, "D:\\Win\\Sysnative\\cmd.exe");
}

#[test]
fn windows_needs_windir_and_homedrive() {
    let mut only_drive = HashMap::new();
    only_drive.insert("homedrive".to_string(), "C:".to_string());
    match candidates(&only_drive, &only_drive, None) {
        Err(EnvError::NotFoundEnvVar(n)) => assert_eq!(n, "windir"),
        _ => panic!("expected windir to be missing"),
    }
    let mut only_windir = HashMap::new();
    only_windir.insert("WINDIR".to_string(), "C:\\Windows".to_string());
    match get_profiles(&ShellSource::WellKnownPaths(only_windir)) {
        Err(EnvError::NotFoundEnvVar(n)) => assert_eq!(n, "homedrive"),
        _ => panic!("expected homedrive to be missing"),
    }
}

#[test]
fn context_prefers_the_larger_environment() {
    let mut small = HashMap::new();
    small.insert("A".to_string(), "1".to_string());
    let mut large = small.clone();
    large.insert("B".to_string(), "2".to_string());
    assert_eq!(context_variables(Ok(large.clone()), small.clone()), large);
    assert_eq!(context_variables(Ok(small.clone()), large.clone()), large);
    assert_eq!(context_variables(Ok(large.clone()), large.clone()).len(), 2);
    assert_eq!(
        context_variables(Err(EnvError::NotSupportedPlatform), small.clone()),
        small
    );
    assert!(context_variables(Err(EnvError::NotSupportedPlatform), HashMap::new()).is_empty());
}
