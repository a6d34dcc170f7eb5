//! What the container tools report, and where the tools are found.
//!
//! The tools are run by the host. Their output is read here: one record per
//! line, a line that has too few fields passed over.

use vstd::prelude::*;
use vstd::string::StringExecFns;
use crate::text::{
    chars_of,
    decimal,
    decimal_string,
    lines,
    lines_of,
    split,
    split_chars,
    texts,
    to_string,
    trim,
    trim_chars,
    views,
    words,
    words_of,
};

verus! {

/// A running container, as `docker ps` lists it.
#[derive(Debug, Clone, PartialEq, Eq)]
pub struct DockerContainer {
    pub id: String,
    pub name: String,
    pub image: String,
    pub status: String,
    pub project: Option<String>,
}

/// A pod, as `kubectl get pods` lists it.
#[derive(Debug, Clone, PartialEq, Eq)]
pub struct KubernetesPod {
    pub name: String,
    pub namespace: String,
    pub status: String,
    pub ready: String,
}

/// A context of the cluster configuration.
#[derive(Debug, Clone, PartialEq, Eq)]
pub struct KubernetesContext {
    pub name: String,
    pub cluster: String,
    pub user: String,
    pub namespace: Option<String>,
    pub is_current: bool,
}

/// A service, as `kubectl get services` lists it.
#[derive(Debug, Clone, PartialEq, Eq)]
pub struct KubernetesService {
    pub name: String,
    pub namespace: String,
    pub service_type: String,
    pub cluster_ip: String,
    pub external_ip: String,
    pub ports: String,
}

/// A deployment, as `kubectl get deployments` lists it.
#[derive(Debug, Clone, PartialEq, Eq)]
pub struct KubernetesDeployment {
    pub name: String,
    pub namespace: String,
    pub ready: String,
    pub up_to_date: String,
    pub available: String,
    pub age: String,
}

/// A [`DockerContainer`], as contracts see it.
pub struct DockerContainerView {
    pub id: Seq<char>,
    pub name: Seq<char>,
    pub image: Seq<char>,
    pub status: Seq<char>,
    pub project: Option<Seq<char>>,
}

/// A [`KubernetesPod`], as contracts see it.
pub struct KubernetesPodView {
    pub name: Seq<char>,
    pub namespace: Seq<char>,
    pub status: Seq<char>,
    pub ready: Seq<char>,
}

/// A [`KubernetesContext`], as contracts see it.
pub struct KubernetesContextView {
    pub name: Seq<char>,
    pub cluster: Seq<char>,
    pub user: Seq<char>,
    pub namespace: Option<Seq<char>>,
    pub is_current: bool,
}

/// A [`KubernetesService`], as contracts see it.
pub struct KubernetesServiceView {
    pub name: Seq<char>,
    pub namespace: Seq<char>,
    pub service_type: Seq<char>,
    pub cluster_ip: Seq<char>,
    pub external_ip: Seq<char>,
    pub ports: Seq<char>,
}

/// A [`KubernetesDeployment`], as contracts see it.
pub struct KubernetesDeploymentView {
    pub name: Seq<char>,
    pub namespace: Seq<char>,
    pub ready: Seq<char>,
    pub up_to_date: Seq<char>,
    pub available: Seq<char>,
    pub age: Seq<char>,
}

impl View for DockerContainer {
    type V = DockerContainerView;

    open spec fn view(&self) -> DockerContainerView {
        DockerContainerView {
            id: self.id@,
            name: self.name@,
            image: self.image@,
            status: self.status@,
            project: match self.project {
                Some(p) => Some(p@),
                None => None,
            },
        }
    }
}

impl View for KubernetesPod {
    type V = KubernetesPodView;

    open spec fn view(&self) -> KubernetesPodView {
        KubernetesPodView {
            name: self.name@,
            namespace: self.namespace@,
            status: self.status@,
            ready: self.ready@,
        }
    }
}

impl View for KubernetesContext {
    type V = KubernetesContextView;

    open spec fn view(&self) -> KubernetesContextView {
        KubernetesContextView {
            name: self.name@,
            cluster: self.cluster@,
            user: self.user@,
            namespace: match self.namespace {
                Some(n) => Some(n@),
                None => None,
            },
            is_current: self.is_current,
        }
    }
}

impl View for KubernetesService {
    type V = KubernetesServiceView;

    open spec fn view(&self) -> KubernetesServiceView {
        KubernetesServiceView {
            name: self.name@,
            namespace: self.namespace@,
            service_type: self.service_type@,
            cluster_ip: self.cluster_ip@,
            external_ip: self.external_ip@,
            ports: self.ports@,
        }
    }
}

impl View for KubernetesDeployment {
    type V = KubernetesDeploymentView;

    open spec fn view(&self) -> KubernetesDeploymentView {
        KubernetesDeploymentView {
            name: self.name@,
            namespace: self.namespace@,
            ready: self.ready@,
            up_to_date: self.up_to_date@,
            available: self.available@,
            age: self.age@,
        }
    }
}

/// A record that one line of a tool's output spells.
pub trait Record: Sized + View {
    /// The record that `line` spells within `namespace`, or `None` where the
    /// line has too few fields.
    spec fn read(line: Seq<char>, namespace: Seq<char>) -> Option<Self::V>;

    /// Reads the record that `line` spells.
    fn parse(line: &Vec<char>, namespace: &str) -> (out: Option<Self>)
        ensures
            match out {
                Some(record) => Self::read(line@, namespace@) == Some(record@),
                None => Self::read(line@, namespace@) is None,
            },
    ;
}

/// The records of `v`, as contracts see them.
pub open spec fn shown<R: Record>(v: Seq<R>) -> Seq<R::V> {
    Seq::new(v.len(), |i: int| v[i]@)
}

/// The records that the lines `all` spell, in order.
pub open spec fn records<R: Record>(all: Seq<Seq<char>>, namespace: Seq<char>) -> Seq<R::V>
    decreases all.len(),
{
    if all.len() == 0 {
        Seq::<R::V>::empty()
    } else {
        let before = records::<R>(all.drop_last(), namespace);
        match R::read(all.last(), namespace) {
            Some(record) => before.push(record),
            None => before,
        }
    }
}

/// Reads a tool's output: one record for each line that spells one, in the
/// order of the lines.
pub fn parse_records<R: Record>(output: &str, namespace: &str) -> (out: Vec<R>)
    ensures
        shown(out@) == records::<R>(lines(output@), namespace@),
{
    let chars = chars_of(output);
    let all = lines_of(&chars);
    let mut out: Vec<R> = Vec::new();
    let mut i: usize = 0;
    assert(views(all@).take(0) =~= Seq::<Seq<char>>::empty());
    assert(shown(out@) =~= Seq::<R::V>::empty());
    while i < all.len()
        invariant
            i <= all.len(),
            shown(out@) == records::<R>(views(all@).take(i as int), namespace@),
        decreases all.len() - i,
    {
        let ghost prev = shown(out@);
        proof {
            assert(views(all@).take(i + 1).drop_last() =~= views(all@).take(i as int));
            assert(views(all@).take(i + 1).last() == all@[i as int]@);
        }
        match R::parse(&all[i], namespace) {
            Some(record) => {
                out.push(record);
                assert(shown(out@) =~= prev.push(out@.last()@));
            },
            None => {},
        }
        i += 1;
    }
    assert(views(all@).take(all.len() as int) =~= views(all@));
    out
}

impl Record for DockerContainer {
    /// The fields of a line are separated by `|`: identifier, name, image and
    /// status, and the compose project where a fifth field holds one.
    open spec fn read(line: Seq<char>, namespace: Seq<char>) -> Option<DockerContainerView> {
        let parts = split(line, '|');
        if parts.len() >= 4 {
            Some(
                DockerContainerView {
                    id: parts[0],
                    name: parts[1],
                    image: parts[2],
                    status: parts[3],
                    project: if parts.len() >= 5 && parts[4].len() > 0 {
                        Some(parts[4])
                    } else {
                        None
                    },
                },
            )
        } else {
            None
        }
    }

    fn parse(line: &Vec<char>, namespace: &str) -> (out: Option<DockerContainer>) {
        let parts = split_chars(line, '|');
        if parts.len() >= 4 {
            let project = if parts.len() >= 5 && parts[4].len() > 0 {
                Some(to_string(&parts[4]))
            } else {
                None
            };
            proof {
                assert(views(parts@)[0] == parts@[0]@);
                assert(views(parts@)[1] == parts@[1]@);
                assert(views(parts@)[2] == parts@[2]@);
                assert(views(parts@)[3] == parts@[3]@);
                if parts.len() >= 5 {
                    assert(views(parts@)[4] == parts@[4]@);
                }
            }
            Some(
                DockerContainer {
                    id: to_string(&parts[0]),
                    name: to_string(&parts[1]),
                    image: to_string(&parts[2]),
                    status: to_string(&parts[3]),
                    project,
                },
            )
        } else {
            None
        }
    }
}

impl Record for KubernetesPod {
    /// The columns of a line are name, readiness and status.
    open spec fn read(line: Seq<char>, namespace: Seq<char>) -> Option<KubernetesPodView> {
        let parts = words(line);
        if parts.len() >= 3 {
            Some(KubernetesPodView { name: parts[0], ready: parts[1], status: parts[2], namespace })
        } else {
            None
        }
    }

    fn parse(line: &Vec<char>, namespace: &str) -> (out: Option<KubernetesPod>) {
        let parts = words_of(line);
        if parts.len() >= 3 {
            proof {
                assert(views(parts@)[0] == parts@[0]@);
                assert(views(parts@)[1] == parts@[1]@);
                assert(views(parts@)[2] == parts@[2]@);
            }
            Some(
                KubernetesPod {
                    name: to_string(&parts[0]),
                    ready: to_string(&parts[1]),
                    status: to_string(&parts[2]),
                    namespace: String::from_str(namespace),
                },
            )
        } else {
            None
        }
    }
}

impl Record for KubernetesService {
    /// The columns of a line are name, type, cluster address, external
    /// address and ports.
    open spec fn read(line: Seq<char>, namespace: Seq<char>) -> Option<KubernetesServiceView> {
        let parts = words(line);
        if parts.len() >= 5 {
            Some(
                KubernetesServiceView {
                    name: parts[0],
                    service_type: parts[1],
                    cluster_ip: parts[2],
                    external_ip: parts[3],
                    ports: parts[4],
                    namespace,
                },
            )
        } else {
            None
        }
    }

    fn parse(line: &Vec<char>, namespace: &str) -> (out: Option<KubernetesService>) {
        let parts = words_of(line);
        if parts.len() >= 5 {
            proof {
                assert(views(parts@)[0] == parts@[0]@);
                assert(views(parts@)[1] == parts@[1]@);
                assert(views(parts@)[2] == parts@[2]@);
                assert(views(parts@)[3] == parts@[3]@);
                assert(views(parts@)[4] == parts@[4]@);
            }
            Some(
                KubernetesService {
                    name: to_string(&parts[0]),
                    service_type: to_string(&parts[1]),
                    cluster_ip: to_string(&parts[2]),
                    external_ip: to_string(&parts[3]),
                    ports: to_string(&parts[4]),
                    namespace: String::from_str(namespace),
                },
            )
        } else {
            None
        }
    }
}

impl Record for KubernetesDeployment {
    /// The columns of a line are name, readiness, up-to-date count, available
    /// count and age.
    open spec fn read(line: Seq<char>, namespace: Seq<char>) -> Option<KubernetesDeploymentView> {
        let parts = words(line);
        if parts.len() >= 5 {
            Some(
                KubernetesDeploymentView {
                    name: parts[0],
                    ready: parts[1],
                    up_to_date: parts[2],
                    available: parts[3],
                    age: parts[4],
                    namespace,
                },
            )
        } else {
            None
        }
    }

    fn parse(line: &Vec<char>, namespace: &str) -> (out: Option<KubernetesDeployment>) {
        let parts = words_of(line);
        if parts.len() >= 5 {
            proof {
                assert(views(parts@)[0] == parts@[0]@);
                assert(views(parts@)[1] == parts@[1]@);
                assert(views(parts@)[2] == parts@[2]@);
                assert(views(parts@)[3] == parts@[3]@);
                assert(views(parts@)[4] == parts@[4]@);
            }
            Some(
                KubernetesDeployment {
                    name: to_string(&parts[0]),
                    ready: to_string(&parts[1]),
                    up_to_date: to_string(&parts[2]),
                    available: to_string(&parts[3]),
                    age: to_string(&parts[4]),
                    namespace: String::from_str(namespace),
                },
            )
        } else {
            None
        }
    }
}

/// The containers that the output of `docker ps` lists.
pub fn parse_docker_containers(output: &str) -> (out: Vec<DockerContainer>)
    ensures
        shown(out@) == records::<DockerContainer>(lines(output@), ""@),
{
    parse_records::<DockerContainer>(output, "")
}

/// The pods that the output of `kubectl get pods` lists, in `namespace`.
pub fn parse_kubernetes_pods(output: &str, namespace: &str) -> (out: Vec<KubernetesPod>)
    ensures
        shown(out@) == records::<KubernetesPod>(lines(output@), namespace@),
{
    parse_records::<KubernetesPod>(output, namespace)
}

/// The services that the output of `kubectl get services` lists, in
/// `namespace`.
pub fn parse_kubernetes_services(output: &str, namespace: &str) -> (out: Vec<KubernetesService>)
    ensures
        shown(out@) == records::<KubernetesService>(lines(output@), namespace@),
{
    parse_records::<KubernetesService>(output, namespace)
}

/// The deployments that the output of `kubectl get deployments` lists, in
/// `namespace`.
pub fn parse_kubernetes_deployments(output: &str, namespace: &str) -> (out: Vec<
    KubernetesDeployment,
>)
    ensures
        shown(out@) == records::<KubernetesDeployment>(lines(output@), namespace@),
{
    parse_records::<KubernetesDeployment>(output, namespace)
}

/// The namespace in which the tools work: what the cluster configuration
/// reports, or `default` where it reports nothing.
pub open spec fn spec_current_namespace(reported: Option<Seq<char>>) -> Seq<char> {
    match reported {
        Some(n) => if n.len() > 0 {
            n
        } else {
            "default"@
        },
        None => "default"@,
    }
}

/// The namespace in which the tools work. `reported` is the output of the
/// configuration query, where the query ran and its output is text.
pub fn current_namespace(reported: Option<&str>) -> (out: String)
    ensures
        out@ == spec_current_namespace(
            match reported {
                Some(n) => Some(n@),
                None => None,
            },
        ),
{
    match reported {
        Some(n) => {
            let chars = chars_of(n);
            if chars.len() > 0 {
                String::from_str(n)
            } else {
                String::from_str("default")
            }
        },
        None => String::from_str("default"),
    }
}

/// The names of the contexts among `all`: every line that is not empty,
/// trimmed.
pub open spec fn context_names(all: Seq<Seq<char>>) -> Seq<Seq<char>>
    decreases all.len(),
{
    if all.len() == 0 {
        Seq::<Seq<char>>::empty()
    } else {
        let before = context_names(all.drop_last());
        if all.last().len() > 0 {
            before.push(trim(all.last()))
        } else {
            before
        }
    }
}

/// The names that the output of `kubectl config get-contexts -o name` lists.
pub fn parse_context_names(output: &str) -> (out: Vec<String>)
    ensures
        texts(out@) == context_names(lines(output@)),
{
    let chars = chars_of(output);
    let all = lines_of(&chars);
    let mut out: Vec<String> = Vec::new();
    let mut i: usize = 0;
    assert(views(all@).take(0) =~= Seq::<Seq<char>>::empty());
    while i < all.len()
        invariant
            i <= all.len(),
            texts(out@) == context_names(views(all@).take(i as int)),
        decreases all.len() - i,
    {
        let ghost prev = texts(out@);
        proof {
            assert(views(all@).take(i + 1).drop_last() =~= views(all@).take(i as int));
            assert(views(all@).take(i + 1).last() == all@[i as int]@);
        }
        if all[i].len() > 0 {
            let name = trim_chars(&all[i]);
            out.push(to_string(&name));
            assert(texts(out@) =~= prev.push(name@));
        }
        i += 1;
    }
    assert(views(all@).take(all.len() as int) =~= views(all@));
    out
}

/// Whether `pattern` stands in `text` at position `at`.
pub open spec fn occurs_at(text: Seq<char>, pattern: Seq<char>, at: int) -> bool {
    0 <= at && at + pattern.len() <= text.len() && text.subrange(at, at + pattern.len())
        == pattern
}

/// The first position at or after `from` at which `pattern` stands in
/// `text`.
pub open spec fn first_occurrence(text: Seq<char>, pattern: Seq<char>, from: int) -> Option<int>
    decreases text.len() + 1 - from,
{
    if from < 0 || from + pattern.len() > text.len() {
        None
    } else if occurs_at(text, pattern, from) {
        Some(from)
    } else {
        first_occurrence(text, pattern, from + 1)
    }
}

/// The text that introduces the value of the field `name`: the name in
/// quotes, a colon, and the quote that opens the value.
pub open spec fn field_key(name: Seq<char>) -> Seq<char> {
    seq!['"'] + name + seq!['"', ':', '"']
}

/// The value of the field `name` in the description `details`: what follows
/// the first occurrence of the field's key, up to the next quote. `None`
/// where the key does not occur.
pub open spec fn spec_field(details: Seq<char>, name: Seq<char>) -> Option<Seq<char>> {
    match first_occurrence(details, field_key(name), 0) {
        Some(at) => Some(split(details.skip(at + field_key(name).len()), '"')[0]),
        None => None,
    }
}

/// Whether `pattern` stands in `text` at position `at`.
pub fn matches_at(text: &Vec<char>, pattern: &Vec<char>, at: usize) -> (out: bool)
    ensures
        out == occurs_at(text@, pattern@, at as int),
{
    if pattern.len() > text.len() || at > text.len() - pattern.len() {
        return false;
    }
    let mut k: usize = 0;
    while k < pattern.len()
        invariant
            k <= pattern.len(),
            at + pattern.len() <= text.len(),
            forall|j: int| 0 <= j < k ==> text@[at + j] == pattern@[j],
        decreases pattern.len() - k,
    {
        if text[at + k] != pattern[k] {
            assert(text@.subrange(at as int, at + pattern.len())[k as int] != pattern@[k as int]);
            return false;
        }
        k += 1;
    }
    assert(text@.subrange(at as int, at + pattern.len()) =~= pattern@);
    true
}

/// The value of the field `name` in the description `details` of a context.
pub fn extract_field(details: &Vec<char>, name: &str) -> (out: Option<String>)
    ensures
        match out {
            Some(value) => spec_field(details@, name@) == Some(value@),
            None => spec_field(details@, name@) is None,
        },
{
    let mut key: Vec<char> = Vec::new();
    key.push('"');
    let name_chars = chars_of(name);
    let mut n: usize = 0;
    while n < name_chars.len()
        invariant
            n <= name_chars.len(),
            key@ == seq!['"'] + name_chars@.take(n as int),
        decreases name_chars.len() - n,
    {
        key.push(name_chars[n]);
        assert(name_chars@.take(n + 1) =~= name_chars@.take(n as int).push(name_chars@[n as int]));
        assert(key@ =~= seq!['"'] + name_chars@.take(n + 1));
        n += 1;
    }
    assert(name_chars@.take(name_chars.len() as int) =~= name_chars@);
    key.push('"');
    key.push(':');
    key.push('"');
    assert(key@ =~= field_key(name@));
    let mut at: usize = 0;
    while at < details.len()
        invariant
            at <= details.len(),
            first_occurrence(details@, key@, 0) == first_occurrence(details@, key@, at as int),
            key@ == field_key(name@),
            key@.len() >= 3,
        decreases details.len() - at,
    {
        if matches_at(details, &key, at) {
            let start = at + key.len();
            let mut rest: Vec<char> = Vec::new();
            let mut k: usize = start;
            while k < details.len()
                invariant
                    start <= k <= details.len(),
                    rest@ == details@.subrange(start as int, k as int),
                decreases details.len() - k,
            {
                rest.push(details[k]);
                assert(details@.subrange(start as int, k + 1) =~= details@.subrange(
                    start as int,
                    k as int,
                ).push(details@[k as int]));
                k += 1;
            }
            assert(rest@ =~= details@.skip(start as int));
            let pieces = split_chars(&rest, '"');
            assert(views(pieces@)[0] == pieces@[0]@);
            return Some(to_string(&pieces[0]));
        }
        at += 1;
    }
    None
}

/// The context called `name`, from the description that the configuration
/// gives of it. Cluster and user are empty, and the namespace unknown, where
/// the description names none or could not be had.
pub open spec fn spec_context(
    name: Seq<char>,
    current: Option<Seq<char>>,
    details: Option<Seq<char>>,
) -> KubernetesContextView {
    let field = |key: Seq<char>|
        match details {
            Some(d) => spec_field(d, key),
            None => None,
        };
    KubernetesContextView {
        name,
        cluster: match field("cluster"@) {
            Some(c) => c,
            None => Seq::<char>::empty(),
        },
        user: match field("user"@) {
            Some(u) => u,
            None => Seq::<char>::empty(),
        },
        namespace: field("namespace"@),
        is_current: current == Some(name),
    }
}

/// Builds the context called `name`. `current` is the name of the context in
/// use, where known; `details` is the configuration's description of the
/// context, where it could be had.
pub fn context_from_details(name: String, current: Option<&String>, details: Option<&str>) -> (out:
    KubernetesContext)
    ensures
        out@ == spec_context(
            name@,
            match current {
                Some(c) => Some(c@),
                None => None,
            },
            match details {
                Some(d) => Some(d@),
                None => None,
            },
        ),
{
    let is_current = match current {
        Some(c) => *c == name,
        None => false,
    };
    match details {
        Some(d) => {
            let chars = chars_of(d);
            let cluster = match extract_field(&chars, "cluster") {
                Some(c) => c,
                None => String::new(),
            };
            let user = match extract_field(&chars, "user") {
                Some(u) => u,
                None => String::new(),
            };
            let namespace = extract_field(&chars, "namespace");
            KubernetesContext { name, cluster, user, namespace, is_current }
        },
        None => KubernetesContext {
            name,
            cluster: String::new(),
            user: String::new(),
            namespace: None,
            is_current,
        },
    }
}

/// The query that asks the configuration for the description of the context
/// called `name`.
pub open spec fn spec_context_query(name: Seq<char>) -> Seq<char> {
    "jsonpath={.contexts[?(@.name==\""@ + name + "\")]}{\"\\n\"}"@
}

/// The argument by which `kubectl config view -o` is asked for the
/// description of the context called `name`.
pub fn context_query(name: &str) -> (out: String)
    ensures
        out@ == spec_context_query(name@),
{
    let mut out = String::from_str("jsonpath={.contexts[?(@.name==\"");
    out.append(name);
    out.append("\")]}{\"\\n\"}");
    out
}

/// The name of the context in use: what the configuration reports, trimmed.
pub fn current_context(reported: Option<&str>) -> (out: Option<String>)
    ensures
        match out {
            Some(name) => reported is Some && name@ == trim(reported->0@),
            None => reported is None,
        },
{
    match reported {
        Some(r) => {
            let chars = chars_of(r);
            let name = trim_chars(&chars);
            Some(to_string(&name))
        },
        None => None,
    }
}

/// The arguments by which `kubectl` restarts the deployment `name` in
/// `namespace`.
pub open spec fn spec_restart_args(name: Seq<char>, namespace: Seq<char>) -> Seq<Seq<char>> {
    seq!["rollout"@, "restart"@, "deployment"@, name, "-n"@, namespace]
}

/// The arguments by which `kubectl` scales the deployment `name` in
/// `namespace` to `replicas` replicas.
pub open spec fn spec_scale_args(name: Seq<char>, namespace: Seq<char>, replicas: i32) -> Seq<
    Seq<char>,
> {
    seq![
        "scale"@,
        "deployment"@,
        name,
        "--replicas="@ + decimal(replicas as int),
        "-n"@,
        namespace,
    ]
}

/// The arguments that restart a deployment.
pub fn restart_args(name: &str, namespace: &str) -> (out: Vec<String>)
    ensures
        texts(out@) == spec_restart_args(name@, namespace@),
{
    let mut out: Vec<String> = Vec::new();
    out.push(String::from_str("rollout"));
    out.push(String::from_str("restart"));
    out.push(String::from_str("deployment"));
    out.push(String::from_str(name));
    out.push(String::from_str("-n"));
    out.push(String::from_str(namespace));
    assert(texts(out@) =~= spec_restart_args(name@, namespace@));
    out
}

/// The arguments that scale a deployment.
pub fn scale_args(name: &str, namespace: &str, replicas: i32) -> (out: Vec<String>)
    ensures
        texts(out@) == spec_scale_args(name@, namespace@, replicas),
{
    let mut out: Vec<String> = Vec::new();
    out.push(String::from_str("scale"));
    out.push(String::from_str("deployment"));
    out.push(String::from_str(name));
    let mut count = String::from_str("--replicas=");
    let number = decimal_string(replicas as i64);
    count.append(number.as_str());
    out.push(count);
    out.push(String::from_str("-n"));
    out.push(String::from_str(namespace));
    assert(texts(out@) =~= spec_scale_args(name@, namespace@, replicas));
    out
}

/// Where a tool was found, or that it is to be looked for further.
#[derive(Debug, Clone, PartialEq, Eq)]
pub enum Resolution {
    /// The path or name by which the tool is run.
    Found(String),
    /// Not settled at this stage.
    Unknown,
}

/// A [`Resolution`], as contracts see it.
pub enum ResolutionView {
    Found(Seq<char>),
    Unknown,
}

impl View for Resolution {
    type V = ResolutionView;

    open spec fn view(&self) -> ResolutionView {
        match self {
            Resolution::Found(path) => ResolutionView::Found(path@),
            Resolution::Unknown => ResolutionView::Unknown,
        }
    }
}

/// The directories in which the tools are commonly installed, each with its
/// closing slash, in the order in which they are tried.
pub open spec fn common_dirs() -> Seq<Seq<char>> {
    seq![
        "/usr/local/bin/"@,
        "/usr/bin/"@,
        "/opt/homebrew/bin/"@,
        "/home/linuxbrew/.linuxbrew/bin/"@,
    ]
}

/// The places in which the tool `cmd` is commonly installed.
pub open spec fn spec_common_paths(cmd: Seq<char>) -> Seq<Seq<char>> {
    Seq::new(4, |i: int| common_dirs()[i] + cmd)
}

/// What the user's setting decides: the setting, trimmed, where that is not
/// empty; nothing otherwise.
pub open spec fn spec_resolve(override_path: Option<Seq<char>>) -> ResolutionView {
    match override_path {
        Some(p) => if trim(p).len() > 0 {
            ResolutionView::Found(trim(p))
        } else {
            ResolutionView::Unknown
        },
        None => ResolutionView::Unknown,
    }
}

/// The first of the common places of `cmd` at which a file exists, given for
/// each place, from position `from` on, whether one does.
pub open spec fn first_existing(cmd: Seq<char>, exists: Seq<bool>, from: int) -> ResolutionView
    decreases 4 - from,
{
    if from < 0 || from >= 4 || from >= exists.len() {
        ResolutionView::Unknown
    } else if exists[from] {
        ResolutionView::Found(spec_common_paths(cmd)[from])
    } else {
        first_existing(cmd, exists, from + 1)
    }
}

/// What the login shell's answer decides: the answer, trimmed, where the
/// shell gave one that is not empty; the bare name of the tool otherwise.
pub open spec fn spec_found_by_shell(cmd: Seq<char>, answer: Option<Seq<char>>) -> Seq<char> {
    match answer {
        Some(a) => if trim(a).len() > 0 {
            trim(a)
        } else {
            cmd
        },
        None => cmd,
    }
}

/// Decides by the user's setting how a tool is run. A setting that is not
/// blank is taken as it stands, without the white space around it; without
/// one the tool is to be looked for, first in its common places.
pub fn resolve_command(cmd: &str, override_path: Option<String>) -> (out: Resolution)
    ensures
        out@ == spec_resolve(
            match override_path {
                Some(p) => Some(p@),
                None => None,
            },
        ),
{
    match override_path {
        Some(p) => {
            let chars = chars_of(p.as_str());
            let trimmed = trim_chars(&chars);
            if trimmed.len() > 0 {
                Resolution::Found(to_string(&trimmed))
            } else {
                Resolution::Unknown
            }
        },
        None => Resolution::Unknown,
    }
}

/// The places in which the tool `cmd` is commonly installed, in the order in
/// which they are tried.
pub fn common_paths(cmd: &str) -> (out: Vec<String>)
    ensures
        texts(out@) == spec_common_paths(cmd@),
        out.len() == 4,
{
    let mut out: Vec<String> = Vec::new();
    let mut a = String::from_str("/usr/local/bin/");
    a.append(cmd);
    out.push(a);
    let mut b = String::from_str("/usr/bin/");
    b.append(cmd);
    out.push(b);
    let mut c = String::from_str("/opt/homebrew/bin/");
    c.append(cmd);
    out.push(c);
    let mut d = String::from_str("/home/linuxbrew/.linuxbrew/bin/");
    d.append(cmd);
    out.push(d);
    assert(texts(out@) =~= spec_common_paths(cmd@));
    out
}

/// Looks for the tool `cmd` in its common places: the first place at which a
/// file exists, where `exists` says so for each place in order. Where none
/// does, the login shell is to be asked.
pub fn find_command(cmd: &str, exists: &Vec<bool>) -> (out: Resolution)
    ensures
        out@ == first_existing(cmd@, exists@, 0),
{
    let paths = common_paths(cmd);
    let mut i: usize = 0;
    while i < 4 && i < exists.len()
        invariant
            i <= 4,
            paths.len() == 4,
            texts(paths@) == spec_common_paths(cmd@),
            first_existing(cmd@, exists@, 0) == first_existing(cmd@, exists@, i as int),
        decreases 4 - i,
    {
        if exists[i] {
            assert(texts(paths@)[i as int] == paths@[i as int]@);
            return Resolution::Found(paths[i].clone());
        }
        i += 1;
    }
    Resolution::Unknown
}

/// The shell that is asked where a tool lies, where the environment names
/// none.
pub const SEARCH_SHELL: &'static str = "/bin/zsh";

/// The shell that is asked where a tool lies: the environment's `SHELL`, or
/// the search shell where that is not set.
pub fn search_shell(env_shell: Option<String>) -> (out: String)
    ensures
        out@ == (match env_shell {
            Some(s) => s@,
            None => SEARCH_SHELL@,
        }),
{
    match env_shell {
        Some(s) => s,
        None => String::from_str(SEARCH_SHELL),
    }
}

/// The command line that asks a shell where the tool `cmd` lies.
pub fn which_command(cmd: &str) -> (out: String)
    ensures
        out@ == "which "@ + cmd@,
{
    let mut out = String::from_str("which ");
    out.append(cmd);
    out
}

/// How the tool `cmd` is run after the login shell was asked for it.
/// `answer` is what the shell printed, where it ran, reported success and
/// printed text.
pub fn found_by_shell(cmd: &str, answer: Option<&str>) -> (out: String)
    ensures
        out@ == spec_found_by_shell(
            cmd@,
            match answer {
                Some(a) => Some(a@),
                None => None,
            },
        ),
{
    match answer {
        Some(a) => {
            let chars = chars_of(a);
            let trimmed = trim_chars(&chars);
            if trimmed.len() > 0 {
                to_string(&trimmed)
            } else {
                String::from_str(cmd)
            }
        },
        None => String::from_str(cmd),
    }
}

} // verus!
