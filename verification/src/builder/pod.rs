//! The pod template of the network server, shared by its deployment and its
//! stateful set: one container `chirpstack` running the configured image
//! with `-c /etc/chirpstack`, its configuration, certificates and ADR plugins
//! mounted read-only, and the pod labels and annotations of the resource.

use crate::crd::spec::server::configuration::Configuration;
use crate::crd::spec::server::workload::Workload;
use crate::crd::types::{Certificate, Image, KeyValue};
use crate::crd::Chirpstack;
use crate::digest::string_views;
use crate::k8s::{
    opt_view, ConfigMapVolumeSource, Container, ContainerPort, EnvFromSource, EnvVar, EnvVarSource,
    ObjectFieldSelector, ObjectMeta, PodSpec, PodTemplateSpec, SecretEnvSource, SecretVolumeSource,
    Volume, VolumeMount,
};
use crate::string_map::StringMap;
use vstd::prelude::*;

verus! {

/// `registry/repository:tag`.
pub open spec fn image_ref(img: Image) -> Seq<char> {
    img.registry@ + "/"@ + img.repository@ + ":"@ + img.tag@
}

/// A volume mount as (name, path, read-only).
pub open spec fn mount_view(m: VolumeMount) -> (Seq<char>, Seq<char>, Option<bool>) {
    (m.name@, m.mount_path@, m.read_only)
}

/// The views of volume mounts.
pub open spec fn mounts_view(v: Seq<VolumeMount>) -> Seq<(Seq<char>, Seq<char>, Option<bool>)> {
    v.map_values(|m: VolumeMount| mount_view(m))
}

/// The mount of a certificate: `/certs/<name>`, read-only.
pub open spec fn certificate_mount(c: Certificate) -> (Seq<char>, Seq<char>, Option<bool>) {
    (c.name@, "/certs/"@ + c.name@, Some(true))
}

/// The mounts of the network server: its configuration under
/// `/etc/chirpstack`, each certificate under `/certs/<name>`, and the ADR
/// plugins under `/adr-plugins` when there are any; all read-only.
pub open spec fn server_mounts(conf: Configuration) -> Seq<(Seq<char>, Seq<char>, Option<bool>)> {
    seq![("configuration-chirpstack"@, "/etc/chirpstack"@, Some(true))] + conf.certificates@.map_values(
        |c: Certificate| certificate_mount(c),
    ) + if conf.adr_plugin_files is Some {
        seq![("adr-plugins"@, "/adr-plugins"@, Some(true))]
    } else {
        Seq::empty()
    }
}

/// A volume as (name, config map, secret).
pub open spec fn volume_view(v: Volume) -> (Seq<char>, Option<Seq<char>>, Option<Option<Seq<char>>>) {
    (
        v.name@,
        match v.config_map {
            Some(c) => Some(c.name@),
            None => None,
        },
        match v.secret {
            Some(s) => Some(opt_view(s.secret_name)),
            None => None,
        },
    )
}

/// The views of volumes.
pub open spec fn volumes_view(v: Seq<Volume>) -> Seq<(Seq<char>, Option<Seq<char>>, Option<Option<Seq<char>>>)> {
    v.map_values(|x: Volume| volume_view(x))
}

/// The volume of a certificate: its secret.
pub open spec fn certificate_volume(c: Certificate) -> (Seq<char>, Option<Seq<char>>, Option<Option<Seq<char>>>) {
    (c.name@, None, Some(Some(c.secret_name@)))
}

/// The volumes of the network server: the config map of its configuration,
/// the secret of each certificate, and the config map of the ADR plugins
/// when there is one.
pub open spec fn server_volumes(conf: Configuration) -> Seq<(Seq<char>, Option<Seq<char>>, Option<Option<Seq<char>>>)> {
    seq![("configuration-chirpstack"@, Some(conf.config_files.config_map_name@), None)]
        + conf.certificates@.map_values(|c: Certificate| certificate_volume(c)) + match conf.adr_plugin_files {
        Some(a) => seq![("adr-plugins"@, Some(a.config_map_name@), None)],
        None => Seq::empty(),
    }
}

/// An environment variable as (name, value, field path it is read from).
pub open spec fn env_view(e: EnvVar) -> (Seq<char>, Option<Seq<char>>, Option<Option<Seq<char>>>) {
    (
        e.name@,
        opt_view(e.value),
        match e.value_from {
            Some(s) => Some(
                match s.field_ref {
                    Some(f) => Some(f.field_path@),
                    None => None,
                },
            ),
            None => None,
        },
    )
}

/// The views of environment variables.
pub open spec fn envs_view(v: Seq<EnvVar>) -> Seq<(Seq<char>, Option<Seq<char>>, Option<Option<Seq<char>>>)> {
    v.map_values(|e: EnvVar| env_view(e))
}

/// An extra environment variable with its fixed value.
pub open spec fn extra_env(e: crate::crd::types::EnvVar) -> (Seq<char>, Option<Seq<char>>, Option<Option<Seq<char>>>) {
    (e.name@, Some(e.value@), None)
}

/// The environment of the network server: its pod name in
/// `CHIRPSTACK_SERVER_POD_NAME`, then the extra variables of the workload.
pub open spec fn server_env(w: Workload) -> Seq<(Seq<char>, Option<Seq<char>>, Option<Option<Seq<char>>>)> {
    seq![("CHIRPSTACK_SERVER_POD_NAME"@, None, Some(Some("metadata.name"@)))] + w.extra_env_vars@.map_values(
        |e: crate::crd::types::EnvVar| extra_env(e),
    )
}

/// An environment source as the secret it imports.
pub open spec fn env_from_view(e: EnvFromSource) -> Option<Seq<char>> {
    match e.secret_ref {
        Some(s) => Some(s.name@),
        None => None,
    }
}

/// The views of environment sources.
pub open spec fn env_froms_view(v: Seq<EnvFromSource>) -> Seq<Option<Seq<char>>> {
    v.map_values(|e: EnvFromSource| env_from_view(e))
}

/// A container port as (port, name).
pub open spec fn port_view(p: ContainerPort) -> (i32, Option<Seq<char>>) {
    (p.container_port, opt_view(p.name))
}

/// `c` is the container of the network server of `chirpstack`: environment
/// secrets are imported whole, none when there are none.
pub open spec fn is_server_container(c: Container, chirpstack: Chirpstack) -> bool {
    let w = chirpstack.spec.server.workload;
    let conf = chirpstack.spec.server.configuration;
    &&& c.name@ == "chirpstack"@
    &&& opt_view(c.image) == Some(image_ref(w.image))
    &&& c.args is Some
    &&& string_views(c.args->0@) == seq!["-c"@, "/etc/chirpstack"@]
    &&& c.env is Some
    &&& envs_view(c.env->0@) == server_env(w)
    &&& if conf.env_secrets@.len() == 0 {
        c.env_from is None
    } else {
        c.env_from is Some && env_froms_view(c.env_from->0@) == string_views(conf.env_secrets@).map_values(
            |n: Seq<char>| Some(n),
        )
    }
    &&& c.ports is Some
    &&& c.ports->0@.map_values(|p: ContainerPort| port_view(p)) == seq![(8080i32, Some("web"@))]
    &&& c.volume_mounts is Some
    &&& mounts_view(c.volume_mounts->0@) == server_mounts(conf)
}

/// `m` with each pair of `kvs` inserted in order (a later key replaces an
/// earlier one).
pub open spec fn insert_all(m: Map<Seq<char>, Seq<char>>, kvs: Seq<KeyValue>) -> Map<Seq<char>, Seq<char>>
    decreases kvs.len(),
{
    if kvs.len() == 0 {
        m
    } else {
        insert_all(m, kvs.drop_last()).insert(kvs.last().key@, kvs.last().value@)
    }
}

/// The annotation that carries the hash of the dependencies.
pub open spec fn hash_annotation() -> Seq<char> {
    "dependent.resources.hash"@
}

/// The annotations of the workload, each pair inserted in order.
pub open spec fn workload_annotations(w: Workload) -> Map<Seq<char>, Seq<char>> {
    insert_all(Map::empty(), w.pod_annotations@)
}

/// The pod annotations of the deployment: those of the workload, then the
/// hash of the dependencies.
pub open spec fn server_annotations(w: Workload, hash: Seq<char>) -> Map<Seq<char>, Seq<char>> {
    workload_annotations(w).insert(hash_annotation(), hash)
}

/// The pod annotations of the stateful set: those of the workload, none at
/// all when the workload names none.
pub open spec fn stateful_set_annotations(w: Workload) -> Option<Map<Seq<char>, Seq<char>>> {
    if w.pod_annotations@.len() == 0 {
        None
    } else {
        Some(workload_annotations(w))
    }
}

/// The view of optional annotations.
pub open spec fn annotations_view(a: Option<StringMap>) -> Option<Map<Seq<char>, Seq<char>>> {
    match a {
        Some(m) => Some(m@),
        None => None,
    }
}

/// `t` is the pod template of the network server of `chirpstack` whose
/// objects are labelled `base_labels`, with the pod annotations
/// `annotations` (none when `annotations` is none); nothing else is set on
/// the template's metadata.
pub open spec fn is_server_pod_template(
    t: PodTemplateSpec,
    chirpstack: Chirpstack,
    base_labels: Map<Seq<char>, Seq<char>>,
    annotations: Option<Map<Seq<char>, Seq<char>>>,
) -> bool {
    let w = chirpstack.spec.server.workload;
    &&& t.metadata is Some
    &&& t.metadata->0.labels is Some
    &&& t.metadata->0.labels->0.well_formed()
    &&& t.metadata->0.labels->0@ == insert_all(base_labels, w.pod_labels@)
    &&& annotations_view(t.metadata->0.annotations) == annotations
    &&& t.metadata->0.annotations is Some ==> t.metadata->0.annotations->0.well_formed()
    &&& t.metadata->0.name is None && t.metadata->0.namespace is None
    &&& t.metadata->0.generate_name is None && t.metadata->0.uid is None && t.metadata->0.generation is None
    &&& t.metadata->0.owner_references is None
    &&& t.spec is Some
    &&& t.spec->0.containers@.len() == 1
    &&& is_server_container(t.spec->0.containers@[0], chirpstack)
    &&& t.spec->0.volumes is Some
    &&& volumes_view(t.spec->0.volumes->0@) == server_volumes(chirpstack.spec.server.configuration)
}

/// Inserts each pair of `kvs` into `m`, in order.
pub fn insert_key_values(m: &mut StringMap, kvs: &Vec<KeyValue>)
    requires
        old(m).well_formed(),
    ensures
        final(m).well_formed(),
        final(m)@ == insert_all(old(m)@, kvs@),
{
    let ghost start = m@;
    let mut i: usize = 0;
    while i < kvs.len()
        invariant
            0 <= i <= kvs.len(),
            m.well_formed(),
            m@ == insert_all(start, kvs@.take(i as int)),
        decreases kvs.len() - i,
    {
        m.insert(kvs[i].key.clone(), kvs[i].value.clone());
        assert(kvs@.take(i + 1).drop_last() =~= kvs@.take(i as int));
        i = i + 1;
    }
    assert(kvs@.take(kvs@.len() as int) =~= kvs@);
}

/// `registry/repository:tag`.
pub fn make_image_ref(img: &Image) -> (s: String)
    ensures
        s@ == image_ref(*img),
{
    let mut s = img.registry.clone();
    s.append("/");
    s.append(img.repository.as_str());
    s.append(":");
    s.append(img.tag.as_str());
    s
}

/// The environment of the network server.
fn server_env_vars(w: &Workload) -> (v: Vec<EnvVar>)
    ensures
        envs_view(v@) == server_env(*w),
{
    let mut v: Vec<EnvVar> = Vec::new();
    v.push(EnvVar {
        name: String::from_str("CHIRPSTACK_SERVER_POD_NAME"),
        value: None,
        value_from: Some(EnvVarSource {
            field_ref: Some(ObjectFieldSelector { field_path: String::from_str("metadata.name") }),
        }),
    });
    let ghost first = envs_view(v@);
    let extra = &w.extra_env_vars;
    let mut i: usize = 0;
    while i < extra.len()
        invariant
            0 <= i <= extra.len(),
            envs_view(v@) == first + extra@.take(i as int).map_values(|e: crate::crd::types::EnvVar| extra_env(e)),
        decreases extra.len() - i,
    {
        let ghost prev = v@;
        v.push(EnvVar { name: extra[i].name.clone(), value: Some(extra[i].value.clone()), value_from: None });
        assert(envs_view(v@) =~= envs_view(prev).push(extra_env(extra@[i as int])));
        assert(extra@.take(i + 1) =~= extra@.take(i as int).push(extra@[i as int]));
        assert(envs_view(v@) =~= first + extra@.take(i + 1).map_values(|e: crate::crd::types::EnvVar| extra_env(e)));
        i = i + 1;
    }
    assert(extra@.take(extra@.len() as int) =~= extra@);
    assert(envs_view(v@) =~= server_env(*w));
    v
}

/// The environment sources: each environment secret, whole.
fn server_env_from(conf: &Configuration) -> (v: Vec<EnvFromSource>)
    ensures
        env_froms_view(v@) == string_views(conf.env_secrets@).map_values(|n: Seq<char>| Some(n)),
{
    let names = &conf.env_secrets;
    let mut v: Vec<EnvFromSource> = Vec::new();
    let mut i: usize = 0;
    while i < names.len()
        invariant
            0 <= i <= names.len(),
            env_froms_view(v@) == string_views(names@).take(i as int).map_values(|n: Seq<char>| Some(n)),
        decreases names.len() - i,
    {
        let ghost prev = v@;
        v.push(EnvFromSource { secret_ref: Some(SecretEnvSource { name: names[i].clone() }) });
        assert(env_froms_view(v@) =~= env_froms_view(prev).push(Some(names@[i as int]@)));
        assert(string_views(names@).take(i + 1) =~= string_views(names@).take(i as int).push(names@[i as int]@));
        assert(env_froms_view(v@) =~= string_views(names@).take(i + 1).map_values(|n: Seq<char>| Some(n)));
        i = i + 1;
    }
    assert(string_views(names@).take(names@.len() as int) =~= string_views(names@));
    v
}

/// The volume mounts of the network server.
fn server_volume_mounts(conf: &Configuration) -> (v: Vec<VolumeMount>)
    ensures
        mounts_view(v@) == server_mounts(*conf),
{
    let mut v: Vec<VolumeMount> = Vec::new();
    v.push(VolumeMount {
        name: String::from_str("configuration-chirpstack"),
        mount_path: String::from_str("/etc/chirpstack"),
        read_only: Some(true),
    });
    let ghost first = mounts_view(v@);
    let certs = &conf.certificates;
    let mut i: usize = 0;
    while i < certs.len()
        invariant
            0 <= i <= certs.len(),
            mounts_view(v@) == first + certs@.take(i as int).map_values(|c: Certificate| certificate_mount(c)),
        decreases certs.len() - i,
    {
        let ghost prev = v@;
        let mut path = String::from_str("/certs/");
        path.append(certs[i].name.as_str());
        v.push(VolumeMount { name: certs[i].name.clone(), mount_path: path, read_only: Some(true) });
        assert(mounts_view(v@) =~= mounts_view(prev).push(certificate_mount(certs@[i as int])));
        assert(certs@.take(i + 1) =~= certs@.take(i as int).push(certs@[i as int]));
        assert(mounts_view(v@) =~= first + certs@.take(i + 1).map_values(|c: Certificate| certificate_mount(c)));
        i = i + 1;
    }
    assert(certs@.take(certs@.len() as int) =~= certs@);
    let ghost middle = mounts_view(v@);
    if conf.adr_plugin_files.is_some() {
        v.push(VolumeMount {
            name: String::from_str("adr-plugins"),
            mount_path: String::from_str("/adr-plugins"),
            read_only: Some(true),
        });
        assert(mounts_view(v@) =~= middle + seq![("adr-plugins"@, "/adr-plugins"@, Some(true))]);
    } else {
        assert(mounts_view(v@) =~= middle + Seq::empty());
    }
    v
}

/// The volumes of the network server.
pub fn server_volumes_of(conf: &Configuration) -> (v: Vec<Volume>)
    ensures
        volumes_view(v@) == server_volumes(*conf),
{
    let mut v: Vec<Volume> = Vec::new();
    v.push(Volume {
        name: String::from_str("configuration-chirpstack"),
        config_map: Some(ConfigMapVolumeSource { name: conf.config_files.config_map_name.clone() }),
        secret: None,
    });
    let ghost first = volumes_view(v@);
    let certs = &conf.certificates;
    let mut i: usize = 0;
    while i < certs.len()
        invariant
            0 <= i <= certs.len(),
            volumes_view(v@) == first + certs@.take(i as int).map_values(|c: Certificate| certificate_volume(c)),
        decreases certs.len() - i,
    {
        let ghost prev = v@;
        v.push(Volume {
            name: certs[i].name.clone(),
            config_map: None,
            secret: Some(SecretVolumeSource { secret_name: Some(certs[i].secret_name.clone()) }),
        });
        assert(volumes_view(v@) =~= volumes_view(prev).push(certificate_volume(certs@[i as int])));
        assert(certs@.take(i + 1) =~= certs@.take(i as int).push(certs@[i as int]));
        assert(volumes_view(v@) =~= first + certs@.take(i + 1).map_values(|c: Certificate| certificate_volume(c)));
        i = i + 1;
    }
    assert(certs@.take(certs@.len() as int) =~= certs@);
    let ghost middle = volumes_view(v@);
    match &conf.adr_plugin_files {
        Some(adr_plugin_files) => {
            v.push(Volume {
                name: String::from_str("adr-plugins"),
                config_map: Some(ConfigMapVolumeSource { name: adr_plugin_files.config_map_name.clone() }),
                secret: None,
            });
            assert(volumes_view(v@) =~= middle + seq![("adr-plugins"@, Some(adr_plugin_files.config_map_name@), None)]);
        },
        None => {
            assert(volumes_view(v@) =~= middle + Seq::empty());
        },
    }
    v
}

/// The container of the network server.
pub fn server_container(chirpstack: &Chirpstack) -> (c: Container)
    ensures
        is_server_container(c, *chirpstack),
{
    let w = &chirpstack.spec.server.workload;
    let conf = &chirpstack.spec.server.configuration;
    let mut args: Vec<String> = Vec::new();
    args.push(String::from_str("-c"));
    args.push(String::from_str("/etc/chirpstack"));
    assert(string_views(args@) =~= seq!["-c"@, "/etc/chirpstack"@]);
    let mut ports: Vec<ContainerPort> = Vec::new();
    ports.push(ContainerPort { container_port: 8080, name: Some(String::from_str("web")) });
    assert(ports@.map_values(|p: ContainerPort| port_view(p)) =~= seq![(8080i32, Some("web"@))]);
    let env_from = server_env_from(conf);
    Container {
        name: String::from_str("chirpstack"),
        image: Some(make_image_ref(&w.image)),
        args: Some(args),
        env: Some(server_env_vars(w)),
        env_from: if conf.env_secrets.len() == 0 {
            None
        } else {
            Some(env_from)
        },
        ports: Some(ports),
        volume_mounts: Some(server_volume_mounts(conf)),
    }
}

/// The pod annotations of the workload, as a map.
pub fn make_workload_annotations(w: &Workload) -> (m: StringMap)
    ensures
        m.well_formed(),
        m@ == workload_annotations(*w),
{
    let mut m = StringMap::new();
    insert_key_values(&mut m, &w.pod_annotations);
    m
}

/// The pod template of the network server, whose objects are labelled
/// `labels`, with the pod annotations `annotations`.
pub fn server_pod_template(chirpstack: &Chirpstack, labels: StringMap, annotations: Option<StringMap>) -> (t: PodTemplateSpec)
    requires
        labels.well_formed(),
        annotations is Some ==> annotations->0.well_formed(),
    ensures
        is_server_pod_template(t, *chirpstack, labels@, annotations_view(annotations)),
{
    let w = &chirpstack.spec.server.workload;
    let mut pod_labels = labels;
    insert_key_values(&mut pod_labels, &w.pod_labels);
    let mut metadata = ObjectMeta::empty();
    metadata.labels = Some(pod_labels);
    metadata.annotations = annotations;
    let mut containers: Vec<Container> = Vec::new();
    containers.push(server_container(chirpstack));
    PodTemplateSpec {
        metadata: Some(metadata),
        spec: Some(PodSpec { containers, volumes: Some(server_volumes_of(&chirpstack.spec.server.configuration)) }),
    }
}

/// Inserting pairs whose keys differ from `k` keeps the value of `k`.
proof fn lemma_insert_all_keeps(m: Map<Seq<char>, Seq<char>>, kvs: Seq<KeyValue>, k: Seq<char>)
    requires
        forall|i: int| 0 <= i < kvs.len() ==> #[trigger] kvs[i].key@ != k,
    ensures
        insert_all(m, kvs).contains_key(k) == m.contains_key(k),
        m.contains_key(k) ==> insert_all(m, kvs)[k] == m[k],
    decreases kvs.len(),
{
    if kvs.len() > 0 {
        let init = kvs.drop_last();
        assert forall|i: int| 0 <= i < init.len() implies #[trigger] init[i].key@ != k by {
            assert(init[i] == kvs[i]);
        }
        lemma_insert_all_keeps(m, init, k);
        assert(kvs.last() == kvs[kvs.len() - 1]);
    }
}

/// A workload selects its own pods: the pods of the network server carry the
/// `app` label its selector asks for, as long as no pod label of the
/// resource is itself named `app`.
pub proof fn law_pods_carry_selected_label(
    t: PodTemplateSpec,
    chirpstack: Chirpstack,
    app_name: Seq<char>,
    annotations: Option<Map<Seq<char>, Seq<char>>>,
)
    requires
        is_server_pod_template(t, chirpstack, crate::metadata::app_labels(app_name), annotations),
        forall|i: int|
            0 <= i < chirpstack.spec.server.workload.pod_labels@.len()
                ==> #[trigger] chirpstack.spec.server.workload.pod_labels@[i].key@ != "app"@,
    ensures
        crate::metadata::app_labels(app_name).submap_of(t.metadata->0.labels->0@),
{
    lemma_insert_all_keeps(crate::metadata::app_labels(app_name), chirpstack.spec.server.workload.pod_labels@, "app"@);
}

/// The pods of the network server's deployment always carry the hash of the
/// dependencies they were made for, whatever annotations the resource asks
/// for; so a change of a config map or secret changes the pod template.
pub proof fn law_pods_carry_dependency_hash(t: PodTemplateSpec, chirpstack: Chirpstack, labels: Map<Seq<char>, Seq<char>>, hash: Seq<char>)
    requires
        is_server_pod_template(t, chirpstack, labels, Some(server_annotations(chirpstack.spec.server.workload, hash))),
    ensures
        t.metadata->0.annotations->0@.contains_key(hash_annotation()),
        t.metadata->0.annotations->0@[hash_annotation()] == hash,
{
}

/// The mounts and the volumes of the network server line up: one mount per
/// volume, in the same order and under the same name.
proof fn lemma_mounts_line_up_with_volumes(conf: Configuration)
    ensures
        server_mounts(conf).len() == server_volumes(conf).len(),
        forall|i: int| 0 <= i < server_mounts(conf).len() ==> #[trigger] server_mounts(conf)[i].0 == server_volumes(conf)[i].0,
{
    let certs = conf.certificates@;
    let ms = server_mounts(conf);
    let vs = server_volumes(conf);
    let cm = certs.map_values(|c: Certificate| certificate_mount(c));
    let cv = certs.map_values(|c: Certificate| certificate_volume(c));
    assert forall|i: int| 0 <= i < ms.len() implies #[trigger] ms[i].0 == vs[i].0 by {
        if 1 <= i < 1 + certs.len() {
            assert(ms[i] == cm[i - 1]);
            assert(vs[i] == cv[i - 1]);
        }
    }
}

/// Every volume mount of the network server container names a volume of its
/// pod, and the container mounts the ADR plugins (`adr-plugins` at
/// `/adr-plugins`) exactly when the resource names ADR plugin files; when no
/// certificate is itself named `adr-plugins`, a mount of that name exists
/// exactly then.
pub proof fn law_mounts_name_pod_volumes(
    t: PodTemplateSpec,
    c: Chirpstack,
    labels: Map<Seq<char>, Seq<char>>,
    annotations: Option<Map<Seq<char>, Seq<char>>>,
)
    requires
        is_server_pod_template(t, c, labels, annotations),
    ensures
        forall|i: int|
            0 <= i < t.spec->0.containers@[0].volume_mounts->0@.len() ==> exists|j: int|
                0 <= j < t.spec->0.volumes->0@.len() && (#[trigger] t.spec->0.volumes->0@[j]).name@
                    == (#[trigger] t.spec->0.containers@[0].volume_mounts->0@[i]).name@,
        (exists|i: int|
            0 <= i < t.spec->0.containers@[0].volume_mounts->0@.len() && (#[trigger] t.spec->0.containers@[0].volume_mounts->0@[i]).name@
                == "adr-plugins"@ && t.spec->0.containers@[0].volume_mounts->0@[i].mount_path@ == "/adr-plugins"@)
            <==> c.spec.server.configuration.adr_plugin_files is Some,
        (forall|k: int| 0 <= k < c.spec.server.configuration.certificates@.len()
            ==> #[trigger] c.spec.server.configuration.certificates@[k].name@ != "adr-plugins"@) ==> (
        (exists|i: int|
            0 <= i < t.spec->0.containers@[0].volume_mounts->0@.len() && (#[trigger] t.spec->0.containers@[0].volume_mounts->0@[i]).name@
                == "adr-plugins"@) <==> c.spec.server.configuration.adr_plugin_files is Some),
{
    let conf = c.spec.server.configuration;
    let mounts = t.spec->0.containers@[0].volume_mounts->0@;
    let vols = t.spec->0.volumes->0@;
    let certs = conf.certificates@;
    let ms = server_mounts(conf);
    let cm = certs.map_values(|x: Certificate| certificate_mount(x));
    lemma_mounts_line_up_with_volumes(conf);
    assert(mounts_view(mounts) == ms);
    assert(volumes_view(vols) == server_volumes(conf));
    assert forall|i: int| 0 <= i < mounts.len() implies exists|j: int|
        0 <= j < vols.len() && (#[trigger] vols[j]).name@ == (#[trigger] mounts[i]).name@ by {
        assert(mounts_view(mounts)[i] == mount_view(mounts[i]));
        assert(volumes_view(vols)[i] == volume_view(vols[i]));
    }
    reveal_strlit("adr-plugins");
    reveal_strlit("/adr-plugins");
    reveal_strlit("/etc/chirpstack");
    reveal_strlit("/certs/");
    reveal_strlit("configuration-chirpstack");
    if conf.adr_plugin_files is Some {
        let last = mounts.len() - 1;
        assert(mounts_view(mounts)[last] == mount_view(mounts[last]));
        assert(ms[last] == ("adr-plugins"@, "/adr-plugins"@, Some(true)));
    } else {
        assert forall|i: int| 0 <= i < mounts.len() implies !((#[trigger] mounts[i]).name@ == "adr-plugins"@
            && mounts[i].mount_path@ == "/adr-plugins"@) by {
            assert(mounts_view(mounts)[i] == mount_view(mounts[i]));
            if i == 0 {
                assert(mounts[i].mount_path@ == "/etc/chirpstack"@);
                assert("/etc/chirpstack"@.len() != "/adr-plugins"@.len());
            } else {
                assert(ms[i] == cm[i - 1]);
                let p = mounts[i].mount_path@;
                assert(p == "/certs/"@ + certs[i - 1].name@);
                assert(p[1] == 'c');
                assert("/adr-plugins"@[1] == 'a');
            }
        }
    }
    if forall|k: int| 0 <= k < certs.len() ==> #[trigger] certs[k].name@ != "adr-plugins"@ {
        if conf.adr_plugin_files is None {
            assert forall|i: int| 0 <= i < mounts.len() implies (#[trigger] mounts[i]).name@ != "adr-plugins"@ by {
                assert(mounts_view(mounts)[i] == mount_view(mounts[i]));
                if i == 0 {
                    assert(mounts[i].name@ == "configuration-chirpstack"@);
                    assert("configuration-chirpstack"@.len() != "adr-plugins"@.len());
                } else {
                    assert(ms[i] == cm[i - 1]);
                    assert(mounts[i].name@ == certs[i - 1].name@);
                }
            }
        }
    }
}

} // verus!
