use volta_core::session::{Hooks, Inventory, Platform, Session};
use volta_core::tool::{Tool, ToolKind, Yarn};
use volta_core::version::Version;
use volta_core::workflow::{Command, Effect, Event, Outcome, Stage, ToolError, Workflow};

fn session(project: Option<Platform>) -> Session {
    Session::new(Platform::empty(), project, Hooks::none(), Inventory::new())
}

fn v(major: u64, minor: u64, patch: u64) -> Version {
    Version::new(major, minor, patch)
}

fn is_version(x: &Option<Version>, major: u64, minor: u64, patch: u64) -> bool {
    match x {
        Some(x) => x.major == major && x.minor == minor && x.patch == patch,
        None => false,
    }
}

#[test]
fn fetch_then_install_on_empty_cache() {
    let mut s = session(None);
    let (mut w, e) = Yarn::new(v(1, 22, 4)).fetch(&mut s);
    assert!(matches!(e, Effect::Fetch { kind: ToolKind::Yarn, source: None, .. }));
    let e = w.advance(&mut s, Event::Fetched(Ok(())));
    assert!(matches!(e, Effect::Finish(Ok(Outcome::Fetched { already: false }))));
    assert!(s.inventory.is_available(ToolKind::Yarn, &v(1, 22, 4)));
    assert_eq!(s.inventory.entries, vec![String::from("yarn-v1.22.4")]);

    let (mut w, e) = Yarn::new(v(1, 22, 4)).install(&mut s);
    assert!(matches!(e, Effect::SaveToolchain));
    assert!(is_version(&s.toolchain.active(ToolKind::Yarn), 1, 22, 4));
    let e = w.advance(&mut s, Event::Saved(Ok(())));
    assert!(matches!(e, Effect::Finish(Ok(Outcome::Installed { project_version: None }))));
    assert_eq!(w.stage, Stage::Done);
}

#[test]
fn pin_in_project_without_pin() {
    let mut s = session(Some(Platform::empty()));
    let (mut w, e) = Yarn::new(v(1, 22, 4)).pin(&mut s);
    assert!(matches!(e, Effect::Fetch { .. }));
    let e = w.advance(&mut s, Event::Fetched(Ok(())));
    assert!(matches!(e, Effect::SaveProject));
    assert!(s.inventory.is_available(ToolKind::Yarn, &v(1, 22, 4)));
    let project = s.project.as_ref().unwrap();
    assert!(is_version(&project.active(ToolKind::Yarn), 1, 22, 4));
    assert!(s.toolchain.active(ToolKind::Yarn).is_none());
    let e = w.advance(&mut s, Event::Saved(Ok(())));
    assert!(matches!(e, Effect::Finish(Ok(Outcome::Pinned))));
}

#[test]
fn fetch_of_cached_version_skips_fetcher() {
    let mut s = session(None);
    s.inventory.entries.push(String::from("yarn-v1.22.4"));
    let (w, e) = Yarn::new(v(1, 22, 4)).fetch(&mut s);
    assert!(matches!(e, Effect::Finish(Ok(Outcome::Fetched { already: true }))));
    assert_eq!(w.stage, Stage::Done);
    assert_eq!(s.inventory.entries.len(), 1);
}

#[test]
fn pin_outside_project_fails() {
    let mut s = session(None);
    let (w, e) = Yarn::new(v(1, 22, 4)).pin(&mut s);
    assert!(matches!(e, Effect::Finish(Err(ToolError::NotInPackage))));
    assert_eq!(w.stage, Stage::Done);
    assert!(s.inventory.entries.is_empty());
    assert!(s.toolchain.active(ToolKind::Yarn).is_none());
}

#[test]
fn second_fetch_does_not_call_fetcher() {
    let mut s = session(None);
    let (mut w, e) = Yarn::new(v(1, 21, 1)).fetch(&mut s);
    assert!(matches!(e, Effect::Fetch { .. }));
    w.advance(&mut s, Event::Fetched(Ok(())));
    let (_, e) = Yarn::new(v(1, 21, 1)).fetch(&mut s);
    assert!(matches!(e, Effect::Finish(Ok(Outcome::Fetched { already: true }))));
    assert_eq!(s.inventory.entries.len(), 1);
}

#[test]
fn install_overwrites_prior_active_version() {
    let mut toolchain = Platform::empty();
    toolchain.set_active(ToolKind::Yarn, Some(v(1, 19, 0)));
    toolchain.set_active(ToolKind::Node, Some(v(12, 4, 0)));
    let mut s = Session::new(toolchain, None, Hooks::none(), Inventory::new());
    s.inventory.entries.push(String::from("yarn-v1.22.4"));
    let (_, e) = Yarn::new(v(1, 22, 4)).install(&mut s);
    assert!(matches!(e, Effect::SaveToolchain));
    assert!(is_version(&s.toolchain.active(ToolKind::Yarn), 1, 22, 4));
    assert!(is_version(&s.toolchain.active(ToolKind::Node), 12, 4, 0));
}

#[test]
fn pin_overwrites_prior_pin_and_keeps_toolchain() {
    let mut pins = Platform::empty();
    pins.set_active(ToolKind::Yarn, Some(v(1, 10, 0)));
    let mut toolchain = Platform::empty();
    toolchain.set_active(ToolKind::Yarn, Some(v(1, 19, 0)));
    let mut s = Session::new(toolchain, Some(pins), Hooks::none(), Inventory::new());
    s.inventory.entries.push(String::from("yarn-v1.22.4"));
    let (_, e) = Yarn::new(v(1, 22, 4)).pin(&mut s);
    assert!(matches!(e, Effect::SaveProject));
    assert!(is_version(&s.project.as_ref().unwrap().active(ToolKind::Yarn), 1, 22, 4));
    assert!(is_version(&s.toolchain.active(ToolKind::Yarn), 1, 19, 0));
}

#[test]
fn install_reports_project_version() {
    let mut pins = Platform::empty();
    pins.set_active(ToolKind::Yarn, Some(v(1, 10, 0)));
    let mut s = Session::new(Platform::empty(), Some(pins), Hooks::none(), Inventory::new());
    s.inventory.entries.push(String::from("yarn-v1.22.4"));
    let (mut w, _) = Yarn::new(v(1, 22, 4)).install(&mut s);
    let e = w.advance(&mut s, Event::Saved(Ok(())));
    match e {
        Effect::Finish(Ok(Outcome::Installed { project_version })) => {
            assert!(is_version(&project_version, 1, 10, 0));
        }
        _ => panic!("expected a finished install"),
    }
    assert!(is_version(&s.project.as_ref().unwrap().active(ToolKind::Yarn), 1, 10, 0));
}

#[test]
fn fetch_failure_is_passed_on() {
    let mut s = session(None);
    let (mut w, _) = Yarn::new(v(1, 22, 4)).install(&mut s);
    let e = w.advance(&mut s, Event::Fetched(Err(String::from("checksum mismatch"))));
    match e {
        Effect::Finish(Err(ToolError::FetchFailed(m))) => assert_eq!(m, "checksum mismatch"),
        _ => panic!("expected a fetch failure"),
    }
    assert!(s.inventory.entries.is_empty());
    assert!(s.toolchain.active(ToolKind::Yarn).is_none());
}

#[test]
fn storage_failure_is_passed_on() {
    let mut s = session(None);
    s.inventory.entries.push(String::from("yarn-v1.22.4"));
    let (mut w, _) = Yarn::new(v(1, 22, 4)).install(&mut s);
    let e = w.advance(&mut s, Event::Saved(Err(String::from("disk full"))));
    match e {
        Effect::Finish(Err(ToolError::StorageError(m))) => assert_eq!(m, "disk full"),
        _ => panic!("expected a storage failure"),
    }
    // the retry finds the version in the cache and does not fetch again
    let (_, e) = Yarn::new(v(1, 22, 4)).install(&mut s);
    assert!(matches!(e, Effect::SaveToolchain));
}

#[test]
fn fetch_uses_the_hook_source() {
    let mut hooks = Hooks::none();
    hooks.yarn = Some(String::from("https://mirror.example/yarn"));
    let mut s = Session::new(Platform::empty(), None, hooks, Inventory::new());
    let tool = Tool { kind: ToolKind::Yarn, version: v(1, 22, 4) };
    let (_, e) = Workflow::start(Command::Fetch, tool, &mut s);
    match e {
        Effect::Fetch { kind, version, source } => {
            assert_eq!(kind, ToolKind::Yarn);
            assert_eq!(version.to_string(), "1.22.4");
            assert_eq!(source.as_deref(), Some("https://mirror.example/yarn"));
        }
        _ => panic!("expected a fetch"),
    }
    let node = Tool { kind: ToolKind::Node, version: v(12, 4, 0) };
    let (_, e) = Workflow::start(Command::Fetch, node, &mut s);
    assert!(matches!(e, Effect::Fetch { kind: ToolKind::Node, source: None, .. }));
}

#[test]
fn other_kinds_do_not_count_as_cached() {
    let mut s = session(None);
    s.inventory.entries.push(String::from("node-v1.22.4"));
    let (_, e) = Yarn::new(v(1, 22, 4)).fetch(&mut s);
    assert!(matches!(e, Effect::Fetch { .. }));
}
