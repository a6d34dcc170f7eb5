use abbyterm::commands::container_commands::{
    common_paths, context_from_details, context_query, current_context, current_namespace,
    extract_field, find_command, found_by_shell, matches_at, parse_context_names,
    parse_docker_containers, parse_kubernetes_deployments, parse_kubernetes_pods,
    parse_kubernetes_services, resolve_command, restart_args, scale_args, search_shell,
    which_command,
    DockerContainer, KubernetesContext, KubernetesDeployment, KubernetesPod, KubernetesService,
    Resolution,
};
use abbyterm::commands::session_commands::{
    newest_first, sanitize_char, sanitize_filename, snapshot_file_name, text_before,
};
use abbyterm::commands::shell_commands::{get_available_shells, parse_shells};

fn s(text: &str) -> String {
    text.to_string()
}

fn chars(text: &str) -> Vec<char> {
    text.chars().collect()
}

#[test]
fn file_name_keeps_letters_numbers_hyphen_and_underscore() {
    assert_eq!(sanitize_filename("work-session_2"), "work-session_2");
    assert_eq!(sanitize_filename("my session/1"), "my_session_1");
    assert_eq!(sanitize_filename("a.b:c*d"), "a_b_c_d");
    assert_eq!(sanitize_filename("../../etc/passwd"), "______etc_passwd");
    assert_eq!(sanitize_filename(""), "");
}

#[test]
fn file_name_keeps_letters_of_every_script() {
    assert_eq!(sanitize_filename("héllo wörld"), "héllo_wörld");
    assert_eq!(sanitize_filename("日本語 ٣"), "日本語_٣");
    assert_eq!(sanitize_filename("tab\there"), "tab_here");
}

#[test]
fn file_name_has_the_length_of_the_name() {
    for name in ["", "a", "a b", "é/ü", "////"] {
        assert_eq!(sanitize_filename(name).chars().count(), name.chars().count());
    }
}

#[test]
fn file_name_agrees_with_a_direct_mapping() {
    let name = "Session #1 (prod) — ünïcode_ok-9";
    let expected: String = name
        .chars()
        .map(|c| if c.is_alphanumeric() || c == '-' || c == '_' { c } else { '_' })
        .collect();
    assert_eq!(sanitize_filename(name), expected);
}

#[test]
fn character_is_kept_or_replaced() {
    assert_eq!(sanitize_char('a', true), 'a');
    assert_eq!(sanitize_char('-', false), '-');
    assert_eq!(sanitize_char('_', false), '_');
    assert_eq!(sanitize_char('/', false), '_');
    assert_eq!(sanitize_char(' ', false), '_');
}

#[test]
fn snapshot_file_has_the_json_extension() {
    assert_eq!(snapshot_file_name("my session"), "my_session.json");
    assert_eq!(snapshot_file_name(""), ".json");
}

#[test]
fn shells_file_is_read_line_by_line() {
    let content = "# /etc/shells: valid login shells\n/bin/sh\n  /bin/bash  \n\n#/bin/old\n/usr/bin/zsh";
    assert_eq!(parse_shells(content), vec![s("/bin/sh"), s("/bin/bash"), s("/usr/bin/zsh")]);
    assert_eq!(parse_shells(""), Vec::<String>::new());
    assert_eq!(parse_shells("   \n\t\n"), Vec::<String>::new());
    assert_eq!(parse_shells("/bin/sh\r\n/bin/dash\r\n"), vec![s("/bin/sh"), s("/bin/dash")]);
}

#[test]
fn default_shells_stand_in_for_a_missing_file() {
    assert_eq!(get_available_shells(None), vec![s("/bin/bash"), s("/bin/sh")]);
    assert_eq!(get_available_shells(Some("/bin/fish\n")), vec![s("/bin/fish")]);
    assert_eq!(get_available_shells(Some("")), Vec::<String>::new());
}

#[test]
fn docker_lines_become_containers() {
    let output = "abc123|web|nginx:latest|Up 2 hours|shop\nxyz789|db|postgres:16|Exited (0)|\n\nbad|line\nq|w|e|r\n";
    assert_eq!(
        parse_docker_containers(output),
        vec![
            DockerContainer {
                id: s("abc123"),
                name: s("web"),
                image: s("nginx:latest"),
                status: s("Up 2 hours"),
                project: Some(s("shop")),
            },
            DockerContainer {
                id: s("xyz789"),
                name: s("db"),
                image: s("postgres:16"),
                status: s("Exited (0)"),
                project: None,
            },
            DockerContainer { id: s("q"), name: s("w"), image: s("e"), status: s("r"), project: None },
        ]
    );
    assert_eq!(parse_docker_containers(""), Vec::<DockerContainer>::new());
}

#[test]
fn docker_line_with_more_fields_keeps_the_first_five() {
    assert_eq!(
        parse_docker_containers("a|b|c|d|e|f|g"),
        vec![DockerContainer {
            id: s("a"),
            name: s("b"),
            image: s("c"),
            status: s("d"),
            project: Some(s("e")),
        }]
    );
}

#[test]
fn pod_lines_become_pods() {
    let output = "web-1   1/1   Running   0   5d\nshort line\n\napi-7\t0/1\tCrashLoopBackOff\t12\t1h\n";
    assert_eq!(
        parse_kubernetes_pods(output, "apps"),
        vec![
            KubernetesPod {
                name: s("web-1"),
                namespace: s("apps"),
                status: s("Running"),
                ready: s("1/1"),
            },
            KubernetesPod {
                name: s("api-7"),
                namespace: s("apps"),
                status: s("CrashLoopBackOff"),
                ready: s("0/1"),
            },
        ]
    );
}

#[test]
fn service_lines_become_services() {
    let output = "kubernetes ClusterIP 10.96.0.1 <none> 443/TCP 30d\nweb LoadBalancer 10.0.0.7 34.1.2.3 80:31000/TCP 2d\nbroken row here\n";
    assert_eq!(
        parse_kubernetes_services(output, "default"),
        vec![
            KubernetesService {
                name: s("kubernetes"),
                namespace: s("default"),
                service_type: s("ClusterIP"),
                cluster_ip: s("10.96.0.1"),
                external_ip: s("<none>"),
                ports: s("443/TCP"),
            },
            KubernetesService {
                name: s("web"),
                namespace: s("default"),
                service_type: s("LoadBalancer"),
                cluster_ip: s("10.0.0.7"),
                external_ip: s("34.1.2.3"),
                ports: s("80:31000/TCP"),
            },
        ]
    );
}

#[test]
fn deployment_lines_become_deployments() {
    let output = "web 3/3 3 3 12d\napi 0/2 2 0\n";
    assert_eq!(
        parse_kubernetes_deployments(output, "prod"),
        vec![KubernetesDeployment {
            name: s("web"),
            namespace: s("prod"),
            ready: s("3/3"),
            up_to_date: s("3"),
            available: s("3"),
            age: s("12d"),
        }]
    );
}

#[test]
fn namespace_defaults_where_none_is_reported() {
    assert_eq!(current_namespace(Some("apps")), "apps");
    assert_eq!(current_namespace(Some("")), "default");
    assert_eq!(current_namespace(None), "default");
    assert_eq!(current_namespace(Some(" ")), " ");
}

#[test]
fn context_names_are_trimmed_lines() {
    assert_eq!(
        parse_context_names("dev\n  staging  \n\nprod\n"),
        vec![s("dev"), s("staging"), s("prod")]
    );
    assert_eq!(parse_context_names(" \n"), vec![s("")]);
    assert_eq!(parse_context_names(""), Vec::<String>::new());
}

#[test]
fn current_context_is_trimmed() {
    assert_eq!(current_context(Some("dev\n")), Some(s("dev")));
    assert_eq!(current_context(None), None);
    assert_eq!(current_context(Some("")), Some(s("")));
}

#[test]
fn pattern_is_found_where_it_stands() {
    let text = chars("abcabc");
    assert!(matches_at(&text, &chars("abc"), 0));
    assert!(matches_at(&text, &chars("abc"), 3));
    assert!(!matches_at(&text, &chars("abc"), 1));
    assert!(!matches_at(&text, &chars("abc"), 4));
    assert!(!matches_at(&text, &chars("abc"), 100));
    assert!(matches_at(&text, &chars(""), 6));
    assert!(!matches_at(&text, &chars("abcabcd"), 0));
}

#[test]
fn field_is_what_stands_between_the_quotes() {
    let details = chars(
        "{\"context\":{\"cluster\":\"dev-cluster\",\"namespace\":\"apps\",\"user\":\"dev-user\"},\"name\":\"dev\"}",
    );
    assert_eq!(extract_field(&details, "cluster"), Some(s("dev-cluster")));
    assert_eq!(extract_field(&details, "user"), Some(s("dev-user")));
    assert_eq!(extract_field(&details, "namespace"), Some(s("apps")));
    assert_eq!(extract_field(&details, "name"), Some(s("dev")));
    assert_eq!(extract_field(&details, "token"), None);
    assert_eq!(extract_field(&chars("\"user\":\"open"), "user"), Some(s("open")));
    assert_eq!(extract_field(&chars("\"user\":\""), "user"), Some(s("")));
    assert_eq!(extract_field(&chars(""), "user"), None);
}

#[test]
fn field_agrees_with_splitting_at_the_key() {
    let text = "x\"cluster\":\"one\",\"cluster\":\"two\"";
    let expected = text
        .split("\"cluster\":\"")
        .nth(1)
        .and_then(|rest| rest.split("\"").next())
        .map(|v| v.to_string());
    assert_eq!(extract_field(&chars(text), "cluster"), expected);
    assert_eq!(expected, Some(s("one")));
}

#[test]
fn context_is_built_from_its_description() {
    let details = "{\"context\":{\"cluster\":\"c1\",\"user\":\"u1\"},\"name\":\"dev\"}\n";
    assert_eq!(
        context_from_details(s("dev"), Some(&s("dev")), Some(details)),
        KubernetesContext {
            name: s("dev"),
            cluster: s("c1"),
            user: s("u1"),
            namespace: None,
            is_current: true,
        }
    );
    assert_eq!(
        context_from_details(s("prod"), Some(&s("dev")), None),
        KubernetesContext {
            name: s("prod"),
            cluster: s(""),
            user: s(""),
            namespace: None,
            is_current: false,
        }
    );
    assert!(!context_from_details(s("prod"), None, None).is_current);
}

#[test]
fn context_query_names_the_context() {
    assert_eq!(
        context_query("dev"),
        format!("jsonpath={{.contexts[?(@.name==\"{}\")]}}{{\"\\n\"}}", "dev")
    );
    assert_eq!(context_query("dev"), "jsonpath={.contexts[?(@.name==\"dev\")]}{\"\\n\"}");
}

#[test]
fn deployment_arguments_are_spelled_out() {
    assert_eq!(
        restart_args("web", "prod"),
        vec![s("rollout"), s("restart"), s("deployment"), s("web"), s("-n"), s("prod")]
    );
    assert_eq!(
        scale_args("web", "prod", 3),
        vec![s("scale"), s("deployment"), s("web"), s("--replicas=3"), s("-n"), s("prod")]
    );
    assert_eq!(scale_args("web", "prod", 0)[3], "--replicas=0");
    assert_eq!(scale_args("web", "prod", -1)[3], "--replicas=-1");
    assert_eq!(scale_args("web", "prod", i32::MIN)[3], "--replicas=-2147483648");
}

#[test]
fn setting_decides_where_it_is_not_blank() {
    assert_eq!(
        resolve_command("kubectl", Some(s("  /opt/bin/kubectl \n"))),
        Resolution::Found(s("/opt/bin/kubectl"))
    );
    assert_eq!(resolve_command("kubectl", Some(s("k"))), Resolution::Found(s("k")));
    assert_eq!(resolve_command("kubectl", Some(s("   "))), Resolution::Unknown);
    assert_eq!(resolve_command("kubectl", Some(s(""))), Resolution::Unknown);
    assert_eq!(resolve_command("kubectl", None), Resolution::Unknown);
}

#[test]
fn common_places_are_tried_in_order() {
    assert_eq!(
        common_paths("docker"),
        vec![
            s("/usr/local/bin/docker"),
            s("/usr/bin/docker"),
            s("/opt/homebrew/bin/docker"),
            s("/home/linuxbrew/.linuxbrew/bin/docker"),
        ]
    );
    assert_eq!(
        find_command("docker", &vec![false, true, true, false]),
        Resolution::Found(s("/usr/bin/docker"))
    );
    assert_eq!(
        find_command("docker", &vec![false, false, false, true]),
        Resolution::Found(s("/home/linuxbrew/.linuxbrew/bin/docker"))
    );
    assert_eq!(find_command("docker", &vec![false, false, false, false]), Resolution::Unknown);
    assert_eq!(find_command("docker", &vec![false, false]), Resolution::Unknown);
    assert_eq!(find_command("docker", &vec![]), Resolution::Unknown);
    assert_eq!(
        find_command("docker", &vec![false, false, false, false, true]),
        Resolution::Unknown
    );
}

#[test]
fn search_shell_is_the_environments_or_zsh() {
    assert_eq!(search_shell(Some(s("/bin/fish"))), "/bin/fish");
    assert_eq!(search_shell(None), "/bin/zsh");
}

#[test]
fn shell_answer_decides_last() {
    assert_eq!(which_command("kubectl"), "which kubectl");
    assert_eq!(found_by_shell("kubectl", Some("/snap/bin/kubectl\n")), "/snap/bin/kubectl");
    assert_eq!(found_by_shell("kubectl", Some("\n")), "kubectl");
    assert_eq!(found_by_shell("kubectl", Some("")), "kubectl");
    assert_eq!(found_by_shell("kubectl", None), "kubectl");
}

#[test]
fn texts_are_ordered_character_by_character() {
    let cases = [
        ("", ""),
        ("", "a"),
        ("a", ""),
        ("a", "b"),
        ("b", "a"),
        ("abc", "abd"),
        ("abc", "ab"),
        ("ab", "abc"),
        ("2024-01-02T10:00:00Z", "2024-01-02T09:59:59Z"),
        ("Z", "a"),
        ("é", "z"),
        ("日本", "日本語"),
        ("\u{10000}", "\u{ffff}"),
    ];
    for (a, b) in cases {
        assert_eq!(text_before(&chars(a), &chars(b)), a < b, "{:?} < {:?}", a, b);
    }
}

#[test]
fn snapshots_are_listed_newest_first() {
    let created = vec![
        s("2024-01-02T10:00:00Z"),
        s("2024-03-01T08:00:00Z"),
        s("2024-01-02T10:00:00Z"),
        s("2023-12-31T23:59:59Z"),
        s("2024-03-01T08:00:00Z"),
    ];
    assert_eq!(newest_first(&created), vec![1, 4, 0, 2, 3]);
    assert_eq!(newest_first(&vec![]), Vec::<usize>::new());
    assert_eq!(newest_first(&vec![s("x")]), vec![0]);
    assert_eq!(newest_first(&vec![s("a"), s("b"), s("c")]), vec![2, 1, 0]);
    assert_eq!(newest_first(&vec![s("c"), s("b"), s("a")]), vec![0, 1, 2]);
}

#[test]
fn listing_agrees_with_a_stable_sort() {
    let created: Vec<String> =
        ["b", "", "a", "b", "ab", "a", "", "c", "b", "abc"].iter().map(|t| s(t)).collect();
    let mut expected: Vec<usize> = (0..created.len()).collect();
    expected.sort_by(|i, j| created[*j].cmp(&created[*i]));
    assert_eq!(newest_first(&created), expected);
}
