use docker_ops_agent::command::{Command, CommandOutcome};
use docker_ops_agent::discovery::{
    find_container_by_image, first_match, listing_rows, load_manifest, run_discovery,
    run_discovery_at, DiscoveredService, Discovery, DiscoveryManifest, DiscoveryStep, Row,
    ServiceRoleConfig,
};
use docker_ops_agent::json::{array, member, object, string, Json};
use docker_ops_agent::memory::{
    add_note, add_note_at, find_service, replace_discovered, LearnedNote, Memory,
};
use docker_ops_agent::memory_file::{decode_memory, load, save};

fn owned(list: &[&str]) -> Vec<String> {
    list.iter().map(|s| s.to_string()).collect()
}

fn role(role: &str, hint: &str, candidates: &[&str], reload: &[&str]) -> ServiceRoleConfig {
    ServiceRoleConfig {
        role: role.to_string(),
        image_hint: hint.to_string(),
        config_candidates: owned(candidates),
        reload_command: owned(reload),
    }
}

fn exited(success: bool, stdout: &str) -> CommandOutcome {
    CommandOutcome::Exited { success, stdout: stdout.as_bytes().to_vec(), stderr: vec![] }
}

fn service(role: &str, container: &str, path: Option<&str>) -> DiscoveredService {
    DiscoveredService {
        role: role.to_string(),
        container_name: container.to_string(),
        config_path: path.map(|p| p.to_string()),
        reload_command: vec![],
        last_confirmed: "t".to_string(),
    }
}

fn asked(step: DiscoveryStep, args: &[&str]) -> Discovery {
    match step {
        DiscoveryStep::Run(d, c) => {
            assert_eq!(
                c,
                Command { program: "docker".to_string(), args: owned(args), input: None }
            );
            assert!(d.is_waiting());
            d
        }
        DiscoveryStep::Done(found) => panic!("the run is over: {:?}", found),
    }
}

const PS: [&str; 3] = ["ps", "--format", "{{.Names}}\t{{.Image}}"];

#[test]
fn containers_are_found_by_image() {
    let listing = "web\tLibrary/NGINX:1\nproxy\tcaddy:2\nnoise\nlate\tcaddy:3\n";
    assert_eq!(find_container_by_image(listing, "nginx"), Some("web".to_string()));
    assert_eq!(find_container_by_image(listing, "Caddy"), Some("proxy".to_string()));
    assert_eq!(find_container_by_image(listing, "noise"), None);
    assert_eq!(find_container_by_image("", "x"), None);
    assert_eq!(find_container_by_image("a\tÜBER\n", "über"), Some("a".to_string()));
    assert_eq!(
        listing_rows("a\tb\tc\nx\n"),
        vec![Row { name: "a".to_string(), image: "b\tc".to_string() }]
    );
    assert_eq!(first_match(&owned(&["a", "bc"]), "c"), 1);
    assert_eq!(first_match(&owned(&["a", "bc"]), "z"), 2);
}

#[test]
fn a_run_of_discovery() {
    let manifest = DiscoveryManifest {
        services: vec![
            role("proxy", "caddy", &["/etc/a", "/etc/b"], &["caddy", "reload"]),
            role("absent", "postgres", &["/x"], &[]),
            role("bare", "nginx", &[], &[]),
            role("lost", "nginx", &["/n"], &[]),
        ],
    };
    let listing = exited(true, "p1\tcaddy:2\nw1\tnginx\n");
    let d = asked(run_discovery_at(manifest, "t".to_string()), &PS);
    let d = asked(d.resume(&listing), &["exec", "p1", "test", "-f", "/etc/a"]);
    let d = asked(d.resume(&exited(false, "")), &["exec", "p1", "test", "-f", "/etc/b"]);
    let d = asked(d.resume(&exited(true, "")), &PS);
    let d = asked(d.resume(&listing), &PS);
    let d = asked(d.resume(&listing), &PS);
    let d = asked(d.resume(&exited(false, "w1\tnginx\n")), &["exec", "w1", "test", "-f", "/n"]);
    let last = d.resume(&CommandOutcome::NotStarted { error: "gone".to_string() });
    let mut proxy = service("proxy", "p1", Some("/etc/b"));
    proxy.reload_command = owned(&["caddy", "reload"]);
    assert_eq!(
        last,
        DiscoveryStep::Done(vec![
            proxy,
            service("bare", "w1", None),
            service("lost", "w1", None),
        ])
    );
}

#[test]
fn a_listing_that_cannot_be_had_finds_nothing() {
    let manifest = DiscoveryManifest { services: vec![role("r", "x", &[], &[])] };
    let d = asked(run_discovery_at(manifest, "t".to_string()), &PS);
    let last = d.resume(&CommandOutcome::NotStarted { error: "no docker".to_string() });
    assert_eq!(last, DiscoveryStep::Done(vec![]));
}

#[test]
fn without_a_manifest_nothing_is_discovered() {
    assert_eq!(load_manifest(None).services.len(), 0);
    assert_eq!(load_manifest(Some(Err("bad toml".to_string()))).services.len(), 0);
    let some = DiscoveryManifest { services: vec![role("r", "h", &[], &[])] };
    assert_eq!(load_manifest(Some(Ok(some))).services.len(), 1);
    assert_eq!(run_discovery(load_manifest(None)), DiscoveryStep::Done(vec![]));
}

#[test]
fn discovery_records_the_current_time() {
    let manifest = DiscoveryManifest { services: vec![role("r", "nginx", &[], &[])] };
    let before = chrono::Utc::now();
    let d = asked(run_discovery(manifest), &PS);
    let after = chrono::Utc::now();
    match d.resume(&exited(true, "w\tnginx\n")) {
        DiscoveryStep::Done(found) => {
            let stamp = chrono::DateTime::parse_from_rfc3339(&found[0].last_confirmed).unwrap();
            assert!(before <= stamp && stamp <= after);
            assert!(found[0].last_confirmed.ends_with("+00:00"));
        }
        DiscoveryStep::Run(_, c) => panic!("unexpected command {:?}", c),
    }
}

fn sample_memory() -> Memory {
    let mut proxy = service("proxy", "p1", Some("/etc/c"));
    proxy.reload_command = owned(&["caddy", "reload"]);
    Memory {
        discovered_services: vec![proxy, service("bare", "w1", None)],
        learned_notes: vec![LearnedNote {
            note: "be \"kind\"".to_string(),
            source: "manual".to_string(),
            added: "t".to_string(),
        }],
    }
}

#[test]
fn memory_starts_with_what_is_on_disk() {
    let empty = Memory { discovered_services: vec![], learned_notes: vec![] };
    assert_eq!(load(None), empty);
    assert_eq!(load(Some(Err("bad json".to_string()))), empty);
    assert_eq!(load(Some(Ok(Json::Null))), empty);
    assert_eq!(load(Some(Ok(object(vec![member("learned_notes", array(vec![]))])))), empty);
    let mem = sample_memory();
    assert_eq!(load(Some(Ok(save(&mem)))), mem);
    assert_eq!(load(Some(Ok(save(&empty)))), empty);
}

#[test]
fn the_form_of_the_memory_on_disk() {
    let entry = |role: &str, container: &str, path: Json, reload: Json| {
        object(vec![
            member("role", string(role)),
            member("container_name", string(container)),
            member("config_path", path),
            member("reload_command", reload),
            member("last_confirmed", string("t")),
        ])
    };
    assert_eq!(
        save(&sample_memory()),
        object(vec![
            member(
                "discovered_services",
                array(vec![
                    entry(
                        "proxy",
                        "p1",
                        string("/etc/c"),
                        array(vec![string("caddy"), string("reload")]),
                    ),
                    entry("bare", "w1", Json::Null, array(vec![])),
                ]),
            ),
            member(
                "learned_notes",
                array(vec![object(vec![
                    member("note", string("be \"kind\"")),
                    member("source", string("manual")),
                    member("added", string("t")),
                ])]),
            ),
        ])
    );
}

#[test]
fn memories_in_another_order_or_with_gaps() {
    let reordered = object(vec![
        member("later", Json::Bool(true)),
        member("learned_notes", array(vec![])),
        member(
            "discovered_services",
            array(vec![object(vec![
                member("last_confirmed", string("t")),
                member("reload_command", array(vec![])),
                member("container_name", string("c")),
                member("extra", Json::Null),
                member("role", string("r")),
            ])]),
        ),
    ]);
    let mem = decode_memory(&reordered).unwrap();
    assert_eq!(mem.discovered_services, vec![service("r", "c", None)]);
    let wrong = |key: &str, value: Json| {
        let mut ms = vec![member(key, value)];
        for k in ["role", "container_name", "last_confirmed"] {
            ms.push(member(k, string("x")));
        }
        if key != "reload_command" {
            ms.push(member("reload_command", array(vec![])));
        }
        decode_memory(&object(vec![
            member("discovered_services", array(vec![object(ms)])),
            member("learned_notes", array(vec![])),
        ]))
    };
    assert!(wrong("unknown", Json::Null).is_some());
    assert!(wrong("role", string("r")).is_none());
    assert!(wrong("config_path", Json::Bool(true)).is_none());
    assert!(wrong("reload_command", array(vec![Json::Null])).is_none());
    assert!(wrong("reload_command", string("x")).is_none());
    let half_a_note = object(vec![member("note", string("n"))]);
    assert!(decode_memory(&object(vec![
        member("discovered_services", array(vec![])),
        member("learned_notes", array(vec![half_a_note])),
    ]))
    .is_none());
}

#[test]
fn a_memory_in_sequence_form() {
    let entry = array(vec![string("r"), string("c"), Json::Null, array(vec![]), string("t")]);
    let form = array(vec![array(vec![entry]), array(vec![])]);
    assert_eq!(
        load(Some(Ok(form))),
        Memory { discovered_services: vec![service("r", "c", None)], learned_notes: vec![] }
    );
    let note = array(vec![string("n"), string("s"), string("a")]);
    let mem = decode_memory(&array(vec![array(vec![]), array(vec![note])])).unwrap();
    assert_eq!(mem.learned_notes[0].source, "s");
    let short = array(vec![string("r"), string("c"), array(vec![]), string("t")]);
    assert!(decode_memory(&array(vec![array(vec![short]), array(vec![])])).is_none());
    assert!(decode_memory(&array(vec![array(vec![]), array(vec![]), array(vec![])])).is_none());
}

#[test]
fn repeated_fields_are_refused() {
    let none = || array(vec![]);
    assert!(decode_memory(&object(vec![
        member("discovered_services", none()),
        member("learned_notes", none()),
        member("other", none()),
        member("other", none()),
    ]))
    .is_some());
    assert!(decode_memory(&object(vec![
        member("discovered_services", none()),
        member("learned_notes", none()),
        member("learned_notes", none()),
    ]))
    .is_none());
}

#[test]
fn fresh_services_replace_the_old_ones() {
    let mut mem = Memory::default();
    add_note_at(&mut mem, "n".to_string(), "manual", "t".to_string());
    replace_discovered(&mut mem, vec![service("old", "a", None), service("both", "b", None)]);
    replace_discovered(&mut mem, vec![service("both", "c", None), service("both", "d", None)]);
    assert!(find_service(&mem, "old").is_none());
    assert_eq!(find_service(&mem, "both").unwrap().container_name, "c");
    assert_eq!(mem.learned_notes.len(), 1);
}

#[test]
fn notes_are_added_at_the_end() {
    let mut mem = Memory::default();
    add_note_at(&mut mem, "first".to_string(), "manual", "t1".to_string());
    let before = chrono::Utc::now();
    add_note(&mut mem, "second".to_string(), "hermes");
    assert_eq!(
        mem.learned_notes[0],
        LearnedNote {
            note: "first".to_string(),
            source: "manual".to_string(),
            added: "t1".to_string(),
        }
    );
    assert_eq!(mem.learned_notes[1].note, "second");
    assert_eq!(mem.learned_notes[1].source, "hermes");
    let stamp = chrono::DateTime::parse_from_rfc3339(&mem.learned_notes[1].added).unwrap();
    assert!(before <= stamp && stamp <= chrono::Utc::now());
    assert_eq!(mem.duplicate(), mem);
}
