use deno_http_worker::flags::prepare_run_flags;

fn strings(items: &[&str]) -> Vec<String> {
    items.iter().map(|item| item.to_string()).collect()
}

#[test]
fn no_caller_flags_get_both_grants() {
    let out = prepare_run_flags(Vec::new(), "/tmp/a.sock", None);
    assert_eq!(out, strings(&["--allow-read=/tmp/a.sock", "--allow-write=/tmp/a.sock"]));
}

#[test]
fn script_path_is_granted_for_reading_only() {
    let out = prepare_run_flags(Vec::new(), "/tmp/a.sock", Some("/srv/mod.ts"));
    assert_eq!(
        out,
        strings(&["--allow-read=/tmp/a.sock,/srv/mod.ts", "--allow-write=/tmp/a.sock"])
    );
}

#[test]
fn allow_all_settles_both() {
    let out = prepare_run_flags(strings(&["--allow-all"]), "/tmp/a.sock", Some("/srv/mod.ts"));
    assert_eq!(out, strings(&["--allow-all"]));
}

#[test]
fn bare_read_switch_settles_reading_only() {
    let out = prepare_run_flags(strings(&["--allow-read"]), "/tmp/a.sock", None);
    assert_eq!(out, strings(&["--allow-read", "--allow-write=/tmp/a.sock"]));
}

#[test]
fn bare_write_switch_settles_writing_only() {
    let out = prepare_run_flags(strings(&["--allow-write"]), "/tmp/a.sock", None);
    assert_eq!(out, strings(&["--allow-write", "--allow-read=/tmp/a.sock"]));
}

#[test]
fn read_list_is_extended() {
    let out = prepare_run_flags(strings(&["--allow-read=/data"]), "/tmp/a.sock", None);
    assert_eq!(out, strings(&["--allow-read=/data,/tmp/a.sock", "--allow-write=/tmp/a.sock"]));
}

#[test]
fn write_list_is_extended() {
    let out = prepare_run_flags(strings(&["--allow-write=/data"]), "/tmp/a.sock", None);
    assert_eq!(out, strings(&["--allow-write=/data,/tmp/a.sock", "--allow-read=/tmp/a.sock"]));
}

#[test]
fn read_list_gets_socket_then_script() {
    let out = prepare_run_flags(
        strings(&["--allow-read=/data", "--allow-write=/out"]),
        "/tmp/a.sock",
        Some("/srv/mod.ts"),
    );
    assert_eq!(
        out,
        strings(&["--allow-read=/data,/tmp/a.sock,/srv/mod.ts", "--allow-write=/out,/tmp/a.sock"])
    );
}

#[test]
fn listed_path_is_not_granted_twice() {
    let out = prepare_run_flags(
        strings(&["--allow-read=/tmp/a.sock,/data", "--allow-write=/data,/tmp/a.sock"]),
        "/tmp/a.sock",
        None,
    );
    assert_eq!(
        out,
        strings(&["--allow-read=/tmp/a.sock,/data", "--allow-write=/data,/tmp/a.sock"])
    );
}

#[test]
fn path_in_the_middle_of_a_list_counts_as_listed() {
    let out = prepare_run_flags(
        strings(&["--allow-read=/a,/tmp/a.sock,/b", "--allow-all"]),
        "/tmp/a.sock",
        Some("/b"),
    );
    assert_eq!(out, strings(&["--allow-read=/a,/tmp/a.sock,/b", "--allow-all"]));
}

#[test]
fn longer_path_with_the_same_beginning_does_not_count() {
    let out = prepare_run_flags(
        strings(&["--allow-read=/tmp/a.socket", "--allow-write=x/tmp/a.sock"]),
        "/tmp/a.sock",
        None,
    );
    assert_eq!(
        out,
        strings(&[
            "--allow-read=/tmp/a.socket,/tmp/a.sock",
            "--allow-write=x/tmp/a.sock,/tmp/a.sock"
        ])
    );
}

#[test]
fn empty_list_is_extended() {
    let out = prepare_run_flags(strings(&["--allow-read="]), "/tmp/a.sock", None);
    assert_eq!(out, strings(&["--allow-read=,/tmp/a.sock", "--allow-write=/tmp/a.sock"]));
}

#[test]
fn other_flags_keep_their_place() {
    let out = prepare_run_flags(
        strings(&["--unstable", "--allow-read=/data", "--allow-net", "--allow-env=HOME"]),
        "/tmp/a.sock",
        None,
    );
    assert_eq!(
        out,
        strings(&[
            "--unstable",
            "--allow-read=/data,/tmp/a.sock",
            "--allow-net",
            "--allow-env=HOME",
            "--allow-write=/tmp/a.sock"
        ])
    );
}

#[test]
fn every_read_list_is_extended() {
    let out = prepare_run_flags(
        strings(&["--allow-read=/a", "--allow-read=/b"]),
        "/tmp/a.sock",
        None,
    );
    assert_eq!(
        out,
        strings(&[
            "--allow-read=/a,/tmp/a.sock",
            "--allow-read=/b,/tmp/a.sock",
            "--allow-write=/tmp/a.sock"
        ])
    );
}

#[test]
fn script_path_equal_to_socket_is_listed_once() {
    let out = prepare_run_flags(Vec::new(), "/tmp/a.sock", Some("/tmp/a.sock"));
    assert_eq!(out, strings(&["--allow-read=/tmp/a.sock", "--allow-write=/tmp/a.sock"]));
}

#[test]
fn flags_that_only_look_alike_are_left_alone() {
    let out = prepare_run_flags(
        strings(&["--allow-reading", "--Allow-Read=/x", "--allow-writes=/y"]),
        "/s",
        None,
    );
    assert_eq!(
        out,
        strings(&[
            "--allow-reading",
            "--Allow-Read=/x",
            "--allow-writes=/y",
            "--allow-read=/s",
            "--allow-write=/s"
        ])
    );
}

#[test]
fn composing_twice_gives_the_same_flags() {
    let cases: Vec<(Vec<String>, &str, Option<&str>)> = vec![
        (Vec::new(), "/tmp/a.sock", None),
        (Vec::new(), "/tmp/a.sock", Some("/srv/mod.ts")),
        (strings(&["--allow-read=/data", "--allow-net"]), "/tmp/a.sock", Some("/srv/mod.ts")),
        (strings(&["--allow-read=", "--allow-write="]), "/tmp/a.sock", None),
        (strings(&["--allow-all"]), "/tmp/a.sock", None),
        (strings(&["--allow-read=/x"]), "/tmp/with,comma.sock", Some("a,b")),
        (strings(&["--allow-write=/x"]), "", Some("")),
    ];
    for (flags, socket, script) in cases {
        let once = prepare_run_flags(flags, socket, script);
        let twice = prepare_run_flags(once.clone(), socket, script);
        assert_eq!(once, twice);
    }
}

#[test]
fn caller_flags_stay_at_the_front_in_order() {
    let caller = strings(&["-q", "--allow-read=/a", "--v8-flags=--max-old-space-size=64"]);
    let out = prepare_run_flags(caller.clone(), "/tmp/a.sock", Some("/m.ts"));
    assert!(out.len() >= caller.len());
    for (given, kept) in caller.iter().zip(out.iter()) {
        assert!(kept.starts_with(given.as_str()));
    }
}
