use docker_ops_agent::container::{
    docker_run_args, recreated_message, ContainerConfig, ContainerInspect,
};
use docker_ops_agent::dotenv::{
    complete_env, filter_env, parse_env, select_by_name, update_env, EnvVar,
};
use docker_ops_agent::json::{array, member, object, string, Json, Member, Number};

fn owned(list: &[&str]) -> Vec<String> {
    list.iter().map(|s| s.to_string()).collect()
}

fn var(name: &str, value: &str) -> EnvVar {
    EnvVar { name: name.to_string(), value: value.to_string() }
}

fn values(list: &[(&str, &str)]) -> Vec<Member> {
    list.iter().map(|(k, v)| member(k, string(v))).collect()
}

#[test]
fn an_env_file_is_read() {
    assert_eq!(
        parse_env("# comment\n\n A=1 \nB=x=y\n  # B=2\nnoise\nA=3\n=empty\nC=\n"),
        vec![var("A", "3"), var("B", "x=y"), var("", "empty"), var("C", "")]
    );
    assert_eq!(parse_env(""), vec![]);
}

#[test]
fn the_file_wins_and_extras_stay() {
    let env = complete_env(
        vec![var("A", "file"), var("B", "file")],
        &owned(&["A=old", "PATH=/bin", "B=old", "X=1", "X=2", "noise"]),
    );
    assert_eq!(
        env,
        vec![var("A", "file"), var("B", "file"), var("PATH", "/bin"), var("X", "2")]
    );
}

#[test]
fn an_update_changes_what_is_asked_for_only() {
    let update = update_env(
        "# head\nA=1\nB=2\n\n  # A=9\nA =3\n",
        &values(&[("A", "one"), ("NEW", "x")]),
    );
    assert_eq!(update.content, "# head\nA=one\nB=2\n\n  # A=9\nA =3\nNEW=x");
    assert_eq!(
        update.changes,
        owned(&["  A: (was Some(\"1\")) -> String(\"one\")", "  NEW: (new) -> String(\"x\")"])
    );
}

#[test]
fn an_update_reports_what_changes_only() {
    let update = update_env("A=1\nB=2", &values(&[("A", "1"), ("B", "3")]));
    assert_eq!(update.content, "A=1\nB=3");
    assert_eq!(update.changes, owned(&["  B: (was Some(\"2\")) -> String(\"3\")"]));
    assert_eq!(update_env("A=1", &values(&[("A", "1")])).changes, owned(&[]));
}

#[test]
fn a_value_with_a_line_feed_stays_on_its_line() {
    let update = update_env("A=1\nB=2", &values(&[("A", "x\nB=9"), ("C", "say \"hi\"")]));
    assert_eq!(update.content, "A=\"x\\nB=9\"\nB=2\nC=say \"hi\"");
}

#[test]
fn an_update_with_other_values_than_strings() {
    let update = update_env(
        "A=1\nA=2",
        &vec![
            member("A", Json::Number(Number::PosInt(5))),
            member("B", Json::Bool(true)),
            member("C", Json::Null),
        ],
    );
    assert_eq!(update.content, "A=5\nA=5\nB=true\nC=null");
    assert_eq!(
        update.changes,
        owned(&[
            "  A: (was Some(\"1\")) -> Number(5)",
            "  A: (was Some(\"2\")) -> Number(5)",
            "  B: (new) -> Bool(true)",
            "  C: (new) -> Null",
        ])
    );
}

#[test]
fn an_update_is_read_back() {
    let update = update_env("A=1\nB=2\n", &values(&[("A", "x y"), ("C", "z")]));
    assert_eq!(
        parse_env(&update.content),
        vec![var("A", "x y"), var("B", "2"), var("C", "z")]
    );
}

#[test]
fn variables_are_filtered_by_name() {
    let listing = "PATH=/usr/bin\nVikunja_URL=x\nOTHER=vikunja\nnoise vikunja\n";
    assert_eq!(filter_env(listing, "VIKUNJA"), "Vikunja_URL=x\nnoise vikunja");
    assert_eq!(filter_env(listing, ""), "PATH=/usr/bin\nVikunja_URL=x\nOTHER=vikunja\nnoise vikunja");
    assert_eq!(filter_env(listing, "absent"), "");
    assert_eq!(
        select_by_name(&owned(&["a", "b", "c"]), &owned(&["x1", "y", "x2"]), "x"),
        owned(&["a", "c"])
    );
}

fn binding(port: &str) -> Json {
    object(vec![member("HostIp", string("")), member("HostPort", string(port))])
}

#[test]
fn a_container_is_run_anew() {
    let host = object(vec![
        member("Binds", array(vec![string("/a:/b"), Json::Null, string("vol:/c:ro")])),
        member(
            "PortBindings",
            object(vec![
                member("443/tcp", Json::Null),
                member("80/tcp", array(vec![binding("8080"), object(vec![])])),
            ]),
        ),
    ]);
    assert_eq!(
        docker_run_args("web", &host, &vec![var("A", "1"), var("B", "x y")], "nginx:1"),
        owned(&[
            "run", "-d", "--name", "web", "-p8080:80/tcp", "-p0:80/tcp", "-v=/a:/b", "-v=vol:/c:ro",
            "-eA=1", "-eB=x y", "nginx:1",
        ])
    );
    assert_eq!(
        docker_run_args("web", &Json::Null, &vec![], "nginx"),
        owned(&["run", "-d", "--name", "web", "nginx"])
    );
}

#[test]
fn the_answer_on_a_container_run_anew() {
    assert_eq!(
        recreated_message("nginx:1", "/stack/.env", 2, 3, &owned(&["run", "-d", "nginx:1"]), "abc"),
        "container recreated successfully.\nImage: nginx:1\nEnv vars applied from /stack/.env (2 vars from .env, 3 extra from original container)\nRun command: docker run -d nginx:1\nContainer output: abc"
    );
}

#[test]
fn the_host_configuration_is_looked_for_in_both_places() {
    let inspect = |outer: Option<Json>, inner: Result<Json, String>| ContainerInspect {
        config: ContainerConfig {
            env: owned(&["A=1"]),
            image: "i".to_string(),
            host_config: inner,
        },
        host_config: outer,
    };
    let both = inspect(Some(string("outer")), Ok(string("inner"))).recipe().unwrap();
    assert_eq!(both.host_config, string("outer"));
    assert_eq!(both.image, "i");
    assert_eq!(both.env, owned(&["A=1"]));
    let outer = inspect(Some(string("outer")), Err("absent".to_string())).recipe().unwrap();
    assert_eq!(outer.host_config, string("outer"));
    let inner = inspect(None, Ok(string("inner"))).recipe().unwrap();
    assert_eq!(inner.host_config, string("inner"));
    assert_eq!(inspect(None, Err("absent".to_string())).recipe(), Err("absent".to_string()));
}
