use injector_core::process::{
    filter_system_services_and_daemon_processes, str_starts_with, ProcessArch, ProcessDescriptor,
};

const SYS32: &str = "C:\\Windows\\System32";
const WOW64: &str = "C:\\Windows\\SysWOW64";

fn proc(pid: u32, ppid: u32, name: &str, path: &str) -> ProcessDescriptor {
    ProcessDescriptor {
        pid,
        ppid,
        arch: ProcessArch::X64,
        bits: 64,
        start_time: 0,
        path: path.to_owned(),
        name: name.to_owned(),
    }
}

#[test]
fn prefix_test_matches_std() {
    for (s, p) in [
        ("C:\\Windows\\System32\\svchost.exe", SYS32),
        ("C:\\Windows\\SysWOW64\\app.exe", SYS32),
        ("C:\\apps\\tool.exe", SYS32),
        ("", ""),
        ("abc", "abcd"),
    ] {
        assert_eq!(str_starts_with(s, p), s.starts_with(p), "{s} / {p}");
    }
}

#[test]
fn system32_processes_are_hidden_wow64_kept() {
    let procs = vec![
        proc(1, 0, "svchost.exe", "C:\\Windows\\System32\\svchost.exe"),
        proc(2, 0, "legacy.exe", "C:\\Windows\\SysWOW64\\legacy.exe"),
        proc(3, 0, "tool.exe", "C:\\apps\\tool.exe"),
    ];
    let r = filter_system_services_and_daemon_processes(&procs, SYS32, WOW64);
    let names: Vec<&str> = r.iter().map(|p| p.name.as_str()).collect();
    assert_eq!(names, vec!["legacy.exe", "tool.exe"]);
}

#[test]
fn same_name_collapses_to_lowest_parent_pid() {
    let procs = vec![
        proc(10, 500, "app.exe", "C:\\apps\\app.exe"),
        proc(11, 200, "app.exe", "C:\\apps\\app.exe"),
        proc(12, 300, "app.exe", "C:\\apps\\app.exe"),
        proc(20, 100, "other.exe", "C:\\apps\\other.exe"),
    ];
    let r = filter_system_services_and_daemon_processes(&procs, SYS32, WOW64);
    assert_eq!(r.len(), 2);
    assert_eq!(r[0].name, "app.exe");
    assert_eq!(r[0].pid, 11);
    assert_eq!(r[0].ppid, 200);
    assert_eq!(r[1].pid, 20);
}

#[test]
fn equal_parent_pids_keep_the_first_instance() {
    let procs = vec![
        proc(31, 400, "tied.exe", "C:\\apps\\tied.exe"),
        proc(32, 400, "tied.exe", "C:\\apps\\tied.exe"),
    ];
    let r = filter_system_services_and_daemon_processes(&procs, SYS32, WOW64);
    assert_eq!(r.len(), 1);
    assert_eq!(r[0].pid, 31);
}

#[test]
fn empty_input_filters_to_empty() {
    let r = filter_system_services_and_daemon_processes(&Vec::new(), SYS32, WOW64);
    assert!(r.is_empty());
}
