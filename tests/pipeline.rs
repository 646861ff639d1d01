use pkgfront::command::{command_to_pacmanager_command, needs_prompt, Action, Command, TranslateError};
use pkgfront::request::plan_request;
use pkgfront::resolve::{
    detected_manager, get_package_manager, override_manager, DistroFacts, Overrides,
    PackageManagerKind, ResolveError,
};
use pkgfront::stream::{LineEvent, OutputStreamer, StreamState, StreamStep};

fn no_overrides() -> Overrides {
    Overrides { apt: false, apk: false, yum: false, pacman: false }
}

fn facts(id: &str, similar: &[&str]) -> DistroFacts {
    DistroFacts {
        id: id.to_string(),
        similar_ids: similar.iter().map(|s| s.to_string()).collect(),
    }
}

fn package_of(a: &Action) -> Option<&str> {
    match a {
        Action::Install(p)
        | Action::Reinstall(p)
        | Action::Uninstall(p)
        | Action::View(p)
        | Action::Search(p) => Some(p.as_str()),
        Action::List | Action::Update => None,
    }
}

#[test]
fn packageless_commands_ignore_package() {
    for c in [Command::List, Command::Update, Command::Upgrade] {
        assert!(!needs_prompt(&c, &String::new()));
        let (a, i) = command_to_pacmanager_command(c, "vim".to_string(), None).unwrap();
        assert!(!i);
        assert!(package_of(&a).is_none());
        let (b, j) = command_to_pacmanager_command(c, String::new(), None).unwrap();
        assert!(!j);
        assert!(package_of(&b).is_none());
    }
    assert!(matches!(command_to_pacmanager_command(Command::List, String::new(), None), Ok((Action::List, false))));
    assert!(matches!(command_to_pacmanager_command(Command::Update, String::new(), None), Ok((Action::Update, false))));
    assert!(matches!(command_to_pacmanager_command(Command::Upgrade, String::new(), None), Ok((Action::Update, false))));
}

#[test]
fn modifying_commands_are_interactive() {
    for c in [Command::Install, Command::Reinstall, Command::Remove] {
        let (_, i) = command_to_pacmanager_command(c, "vim".to_string(), None).unwrap();
        assert!(i);
        let (_, j) = command_to_pacmanager_command(c, String::new(), Some("vim".to_string())).unwrap();
        assert!(j);
    }
}

#[test]
fn queries_are_not_interactive() {
    for c in [Command::Search, Command::View] {
        let (_, i) = command_to_pacmanager_command(c, "vim".to_string(), None).unwrap();
        assert!(!i);
        let (_, j) = command_to_pacmanager_command(c, String::new(), Some("vim".to_string())).unwrap();
        assert!(!j);
    }
}

#[test]
fn given_package_is_used_verbatim() {
    let pkg = "  lolcat=100.0.1-3 ".to_string();
    for c in [Command::Install, Command::Reinstall, Command::Remove, Command::Search, Command::View] {
        assert!(!needs_prompt(&c, &pkg));
        let (a, _) = command_to_pacmanager_command(c, pkg.clone(), Some("other".to_string())).unwrap();
        assert_eq!(package_of(&a), Some(pkg.as_str()));
    }
    assert!(matches!(
        command_to_pacmanager_command(Command::Remove, "vim".to_string(), None),
        Ok((Action::Uninstall(ref p), true)) if p == "vim"
    ));
    assert!(matches!(
        command_to_pacmanager_command(Command::View, "vim".to_string(), None),
        Ok((Action::View(ref p), false)) if p == "vim"
    ));
    assert!(matches!(
        command_to_pacmanager_command(Command::Search, "vim".to_string(), None),
        Ok((Action::Search(ref p), false)) if p == "vim"
    ));
    assert!(matches!(
        command_to_pacmanager_command(Command::Reinstall, "vim".to_string(), None),
        Ok((Action::Reinstall(ref p), true)) if p == "vim"
    ));
}

#[test]
fn empty_package_takes_the_prompted_one() {
    for c in [Command::Install, Command::Reinstall, Command::Remove, Command::Search, Command::View] {
        assert!(needs_prompt(&c, &String::new()));
        let (a, _) = command_to_pacmanager_command(c, String::new(), Some("htop".to_string())).unwrap();
        assert_eq!(package_of(&a), Some("htop"));
    }
}

#[test]
fn failed_or_empty_prompt_is_invalid_package_name() {
    assert!(matches!(
        command_to_pacmanager_command(Command::Install, String::new(), None),
        Err(TranslateError::InvalidPackageName)
    ));
    assert!(matches!(
        command_to_pacmanager_command(Command::Search, String::new(), Some(String::new())),
        Err(TranslateError::InvalidPackageName)
    ));
}

#[test]
fn override_wins_over_detection() {
    let cases = [
        (Overrides { apt: true, ..no_overrides() }, PackageManagerKind::Apt),
        (Overrides { apk: true, ..no_overrides() }, PackageManagerKind::Apk),
        (Overrides { yum: true, ..no_overrides() }, PackageManagerKind::Yum),
        (Overrides { pacman: true, ..no_overrides() }, PackageManagerKind::Pacman),
    ];
    let arch = facts("arch", &[]);
    let unknown = facts("plan9", &[]);
    for (o, k) in cases {
        assert!(o.is_valid());
        assert_eq!(override_manager(&o), Some(k));
        assert_eq!(get_package_manager(&o, None), Ok(k));
        assert_eq!(get_package_manager(&o, Some(&arch)), Ok(k));
        assert_eq!(get_package_manager(&o, Some(&unknown)), Ok(k));
    }
}

#[test]
fn several_overrides_are_not_valid() {
    assert!(no_overrides().is_valid());
    assert!(!Overrides { apt: true, yum: true, ..no_overrides() }.is_valid());
    assert_eq!(override_manager(&no_overrides()), None);
}

#[test]
fn detection_by_family() {
    let o = no_overrides();
    assert_eq!(get_package_manager(&o, Some(&facts("arch", &[]))), Ok(PackageManagerKind::Pacman));
    assert_eq!(get_package_manager(&o, Some(&facts("manjaro", &["arch"]))), Ok(PackageManagerKind::Pacman));
    assert_eq!(get_package_manager(&o, Some(&facts("debian", &[]))), Ok(PackageManagerKind::Apt));
    assert_eq!(get_package_manager(&o, Some(&facts("ubuntu", &[]))), Ok(PackageManagerKind::Apt));
    assert_eq!(get_package_manager(&o, Some(&facts("linuxmint", &[]))), Ok(PackageManagerKind::Apt));
    assert_eq!(get_package_manager(&o, Some(&facts("pop", &["ubuntu", "debian"]))), Ok(PackageManagerKind::Apt));
    assert_eq!(get_package_manager(&o, Some(&facts("rhel", &[]))), Ok(PackageManagerKind::Yum));
    assert_eq!(get_package_manager(&o, Some(&facts("fedora", &[]))), Ok(PackageManagerKind::Yum));
    assert_eq!(get_package_manager(&o, Some(&facts("opensuse", &[]))), Ok(PackageManagerKind::Yum));
    assert_eq!(get_package_manager(&o, Some(&facts("centos", &["rhel", "fedora"]))), Ok(PackageManagerKind::Yum));
}

#[test]
fn unrecognized_system_is_unsupported() {
    let o = no_overrides();
    assert_eq!(get_package_manager(&o, Some(&facts("plan9", &[]))), Err(ResolveError::UnsupportedSystem));
    assert_eq!(get_package_manager(&o, Some(&facts("alpine", &[]))), Err(ResolveError::UnsupportedSystem));
    assert_eq!(get_package_manager(&o, Some(&facts("gentoo", &["nixos"]))), Err(ResolveError::UnsupportedSystem));
    assert_eq!(get_package_manager(&o, None), Err(ResolveError::UnsupportedSystem));
    assert_eq!(detected_manager(None), Err(ResolveError::UnsupportedSystem));
    assert!(ResolveError::UnsupportedSystem.message().contains("override flag"));
    assert!(ResolveError::UnsupportedSystem.message().contains("--pacman"));
}

#[test]
fn family_membership() {
    assert!(facts("linuxmint", &[]).is_similar("ubuntu"));
    assert!(facts("mint", &[]).is_similar("linuxmint"));
    assert!(facts("pop", &["ubuntu"]).is_similar("ubuntu"));
    assert!(!facts("pop", &["ubuntu"]).is_similar("arch"));
    assert!(!facts("arch", &[]).is_similar("debian"));
    assert!(facts("opensuse_tumbleweed", &[]).is_similar("rhel"));
    assert!(facts("tumbleweed", &["opensuse_tumbleweed"]).is_similar("suse"));
    assert!(!facts("tumbleweed", &["opensuse_tumbleweed"]).is_similar("rhel"));
}

#[test]
fn streamer_emits_lines_in_order() {
    let mut s = OutputStreamer::new();
    let mut seen: Vec<String> = Vec::new();
    let events = vec![
        LineEvent::Line("a".to_string()),
        LineEvent::Line("b".to_string()),
        LineEvent::Line("c".to_string()),
        LineEvent::Closed,
    ];
    let mut finished = 0;
    for e in events {
        match s.accept(e) {
            StreamStep::Emit(l) => seen.push(l),
            StreamStep::Finished => finished += 1,
            other => panic!("unexpected step {:?}", other),
        }
    }
    assert_eq!(seen, vec!["a", "b", "c"]);
    assert_eq!(finished, 1);
    assert_eq!(s.state, StreamState::Ended);
    assert!(matches!(s.accept(LineEvent::Line("d".to_string())), StreamStep::Stopped));
}

#[test]
fn streamer_reports_read_failure() {
    let mut s = OutputStreamer::new();
    assert!(matches!(s.accept(LineEvent::Line("x".to_string())), StreamStep::Emit(ref l) if l == "x"));
    assert!(matches!(s.accept(LineEvent::Failed("bad utf-8".to_string())), StreamStep::Error(ref m) if m == "bad utf-8"));
    assert_eq!(s.state, StreamState::Failed);
    assert!(matches!(s.accept(LineEvent::Line("y".to_string())), StreamStep::Stopped));
    assert!(matches!(s.accept(LineEvent::Closed), StreamStep::Stopped));
}

#[test]
fn streamer_empty_output() {
    let mut s = OutputStreamer::new();
    assert!(matches!(s.accept(LineEvent::Closed), StreamStep::Finished));
    assert_eq!(s.state, StreamState::Ended);
}

#[test]
fn install_with_prompt_and_apt_override() {
    let o = Overrides { apt: true, ..no_overrides() };
    assert_eq!(override_manager(&o), Some(PackageManagerKind::Apt));
    let manager = get_package_manager(&o, None).unwrap();
    assert!(needs_prompt(&Command::Install, &String::new()));
    let req = plan_request(Command::Install, String::new(), Some("curl".to_string()), manager).unwrap();
    assert!(matches!(req.action, Action::Install(ref p) if p == "curl"));
    assert!(req.interactive);
    assert_eq!(req.manager, PackageManagerKind::Apt);
    assert!(req.extra_flags.is_none());
}

#[test]
fn list_on_debian_without_prompt() {
    let o = no_overrides();
    assert_eq!(override_manager(&o), None);
    let manager = get_package_manager(&o, Some(&facts("debian", &[]))).unwrap();
    assert!(!needs_prompt(&Command::List, &String::new()));
    let req = plan_request(Command::List, String::new(), None, manager).unwrap();
    assert!(matches!(req.action, Action::List));
    assert!(!req.interactive);
    assert_eq!(req.manager, PackageManagerKind::Apt);
}

#[test]
fn plan_request_passes_translation_error() {
    let r = plan_request(Command::View, String::new(), None, PackageManagerKind::Yum);
    assert!(matches!(r, Err(TranslateError::InvalidPackageName)));
}
