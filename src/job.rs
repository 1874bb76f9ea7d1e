//! The job factory: the backing job that runs one build, built from the
//! build request alone.

use vstd::prelude::*;

use crate::status::{text_opt, NixBuildSpec};

verus! {

/// The prefix of every backing job's name.
pub const JOB_NAME_PREFIX: &'static str = "build-";

/// The builder image that runs the script.
pub const BUILDER_IMAGE: &'static str = "registry.fyfaen.as/nix-builder:1.0.12";

/// The binary cache the builder reads from and pushes to.
pub const CACHE_HOST: &'static str = "nix-serve.nixbuilder.svc.cluster.local:3000";

/// The secret that holds the registry credentials.
pub const REGISTRY_SECRET: &'static str = "zot-creds";

/// The pull secret of the builder image.
pub const PULL_SECRET: &'static str = "nix-serve-regcred";

/// The build attribute used where the request names none.
pub const DEFAULT_ATTRIBUTE: &'static str = "default";

/// The builder script, in four pieces: the cache host goes after the first
/// and the second, the build attribute after the third.
pub const SCRIPT_HEAD: &'static str = r#"BUILD_NAME="$BUILD_NAME"
BUILD_NAME="${BUILD_NAME#build-}"

publish_status() {
    local status="$1"
    local message="$2"

    nats --server nats://nats.nats.svc.cluster.local:4222 pub deploy.status.nixbuilder \
        '{ "build_name": "'"$BUILD_NAME"'", "status": "'"$status"'", "message": "'"$message"'", "timestamp": "'"$(date -u +"%Y-%m-%dT%H:%M:%SZ")"'" }'
}

export PATH="/home/nixuser/.nix-profile/bin:/nix/var/nix/profiles/default/bin:$PATH"
export NIX_PATH="/home/nixuser/.nix-defexpr/channels:/nix/var/nix/profiles/per-user/root/channels"
echo '#!/usr/bin/env bash' >> /home/nixuser/push-to-cache.sh
echo '/home/nixuser/.nix-profile/bin/nix --extra-experimental-features nix-command --extra-experimental-features flakes copy --to http://"#;

pub const SCRIPT_SUBSTITUTER: &'static str = r#" $OUT_PATHS' >> /home/nixuser/push-to-cache.sh
chmod +x /home/nixuser/push-to-cache.sh
set -euo pipefail
which nix


publish_status "Building" "Populating cache"
echo "[builder] starting"
nix --extra-experimental-features nix-command --extra-experimental-features flakes \
    --option require-sigs false \
    --option substitute true \
    --option extra-substituters http://"#;

pub const SCRIPT_ATTRIBUTE: &'static str = r#" \
    build .#"#;

pub const SCRIPT_TAIL: &'static str = r#" \
    --post-build-hook /home/nixuser/push-to-cache.sh
echo "[builder]"

publish_status "Checking" "running nix flake check"
echo "[builder] running nix flake check"
if ! nix flake check; then
publish_status "Failed" "Nix Flake check failed"
    echo "[builder] nix flake check failed"
    exit 1
fi

echo "[builder] attempting to build image..."
if ! nix build .#image -o result; then
    publish_status "Failed" "image generation failed"
    echo "[builder] image not defined, skipping"
    exit 0
fi

IMAGE_NAME=$(nix eval .#image.imageName --raw | tr '[:upper:]' '[:lower:]' | tr -c 'a-z0-9_.-/:' '-' | sed 's/^-*//;s/-*$//' )
IMAGE_TAG=$(nix eval .#image.imageTag --raw | tr -c 'a-zA-Z0-9_.-' '-' | cut -c1-128)
FULL_TAG="$IMAGE_NAME:$IMAGE_TAG"

echo "[builder] detected image: $FULL_TAG"

if [ -z "$ZOT_USERNAME" ] || [ -z "$ZOT_PASSWORD" ]; then
    publish_status "Failed" "missing push credentials"
    echo "[builder] missing credentials, cannot push image"
    exit 1
fi

echo "[builder] pushing image to registry"
if ! skopeo copy --dest-creds "$ZOT_USERNAME:$ZOT_PASSWORD" docker-archive:result docker://$FULL_TAG; then
    publish_status "Failed" "Skopeo copy failed"
    echo "[builder] skopeo failed" >&2
    exit 1
fi
unset ZOT_USERNAME ZOT_PASSWORD

echo "[builder] successfully pushed $FULL_TAG to registry"

echo "[builder] building manifest"
nix --extra-experimental-features nix-command --extra-experimental-features flakes \
    --option require-sigs false \
    --option substitute true \
    --option extra-substituters http://nix-serve-nixbuilder.svc.cluster.local:3000 \
    build .#manifests --out-link manifests \
    --post-build-hook /home/nixuser/push-to-cache.sh

echo "[builder] publishing deploy message"
MANIFEST_CONTENT=$(cat manifests | base64 -w0)
nats --server nats://nats.nats.svc.cluster.local:4222 pub deploy.ready '{
  "manifestB64": "'"$MANIFEST_CONTENT"'",
  "build_name": "'"$BUILD_NAME"'",
  "timestamp": "'"$(date -u +"%Y-%m-%dT%H:%M:%SZ")"'"
}'

publish_status "Deploying" "Build proccess completed successfully "
"#;

/// The name of the backing job of the build request named `build_name`.
pub open spec fn job_name_spec(build_name: Seq<char>) -> Seq<char> {
    JOB_NAME_PREFIX@ + build_name
}

/// The name of the backing job of the build request named `build_name`.
pub fn job_name_for(build_name: &str) -> (r: String)
    ensures
        r@ == job_name_spec(build_name@),
{
    let mut r = JOB_NAME_PREFIX.to_owned();
    r.append(build_name);
    r
}

/// The builder script for a build attribute.
pub open spec fn script_spec(attr: Seq<char>) -> Seq<char> {
    SCRIPT_HEAD@ + CACHE_HOST@ + SCRIPT_SUBSTITUTER@ + CACHE_HOST@ + SCRIPT_ATTRIBUTE@ + attr
        + SCRIPT_TAIL@
}

/// The builder script for a build attribute.
pub fn build_script(attr: &str) -> (r: String)
    ensures
        r@ == script_spec(attr@),
{
    let mut r = SCRIPT_HEAD.to_owned();
    r.append(CACHE_HOST);
    r.append(SCRIPT_SUBSTITUTER);
    r.append(CACHE_HOST);
    r.append(SCRIPT_ATTRIBUTE);
    r.append(attr);
    r.append(SCRIPT_TAIL);
    r
}

/// The link from a backing job to the build request that owns it; deleting
/// the request deletes the job.
pub struct OwnerRef {
    pub api_version: String,
    pub kind: String,
    pub name: String,
    pub uid: String,
    pub controller: Option<bool>,
    pub block_owner_deletion: Option<bool>,
}

pub struct OwnerRefView {
    pub api_version: Seq<char>,
    pub kind: Seq<char>,
    pub name: Seq<char>,
    pub uid: Seq<char>,
    pub controller: Option<bool>,
    pub block_owner_deletion: Option<bool>,
}

impl View for OwnerRef {
    type V = OwnerRefView;

    open spec fn view(&self) -> OwnerRefView {
        OwnerRefView {
            api_version: self.api_version@,
            kind: self.kind@,
            name: self.name@,
            uid: self.uid@,
            controller: self.controller,
            block_owner_deletion: self.block_owner_deletion,
        }
    }
}

impl OwnerRef {
    /// A copy with the same value.
    pub fn duplicate(&self) -> (r: OwnerRef)
        ensures
            r@ == self@,
    {
        OwnerRef {
            api_version: self.api_version.clone(),
            kind: self.kind.clone(),
            name: self.name.clone(),
            uid: self.uid.clone(),
            controller: self.controller,
            block_owner_deletion: self.block_owner_deletion,
        }
    }
}

/// Where an environment variable of the builder takes its value from.
pub enum EnvSource {
    Literal(String),
    SecretKey { secret: String, key: String },
}

pub enum EnvSourceView {
    Literal(Seq<char>),
    SecretKey { secret: Seq<char>, key: Seq<char> },
}

impl View for EnvSource {
    type V = EnvSourceView;

    open spec fn view(&self) -> EnvSourceView {
        match self {
            EnvSource::Literal(v) => EnvSourceView::Literal(v@),
            EnvSource::SecretKey { secret, key } => EnvSourceView::SecretKey {
                secret: secret@,
                key: key@,
            },
        }
    }
}

/// An environment variable of the builder container.
pub struct EnvVarSpec {
    pub name: String,
    pub source: EnvSource,
}

pub struct EnvVarView {
    pub name: Seq<char>,
    pub source: EnvSourceView,
}

impl View for EnvVarSpec {
    type V = EnvVarView;

    open spec fn view(&self) -> EnvVarView {
        EnvVarView { name: self.name@, source: self.source@ }
    }
}

/// The backing job of a build: one container that runs the builder script
/// once, never restarted, owned by the build request.
pub struct BuildJob {
    pub name: String,
    pub owner: OwnerRef,
    pub container_name: String,
    pub image: String,
    pub env: Vec<EnvVarSpec>,
    pub command: Vec<String>,
    pub backoff_limit: i32,
    pub restart_policy: String,
    pub image_pull_secret: String,
}

pub struct BuildJobView {
    pub name: Seq<char>,
    pub owner: OwnerRefView,
    pub container_name: Seq<char>,
    pub image: Seq<char>,
    pub env: Seq<EnvVarView>,
    pub command: Seq<Seq<char>>,
    pub backoff_limit: i32,
    pub restart_policy: Seq<char>,
    pub image_pull_secret: Seq<char>,
}

impl View for BuildJob {
    type V = BuildJobView;

    open spec fn view(&self) -> BuildJobView {
        BuildJobView {
            name: self.name@,
            owner: self.owner@,
            container_name: self.container_name@,
            image: self.image@,
            env: self.env@.map_values(|e: EnvVarSpec| e@),
            command: self.command@.map_values(|c: String| c@),
            backoff_limit: self.backoff_limit,
            restart_policy: self.restart_policy@,
            image_pull_secret: self.image_pull_secret@,
        }
    }
}

/// The build attribute of a request: the one it names, else "default".
pub open spec fn attribute_spec(spec: NixBuildSpec) -> Seq<char> {
    match text_opt(spec.nix_attr) {
        Some(a) => a,
        None => DEFAULT_ATTRIBUTE@,
    }
}

/// The environment of the builder: the job's name, and the registry
/// credentials read from the registry secret.
pub open spec fn builder_env_spec(name: Seq<char>) -> Seq<EnvVarView> {
    seq![
        EnvVarView { name: "BUILD_NAME"@, source: EnvSourceView::Literal(name) },
        EnvVarView {
            name: "ZOT_USERNAME"@,
            source: EnvSourceView::SecretKey { secret: REGISTRY_SECRET@, key: "ZOT_USERNAME"@ },
        },
        EnvVarView {
            name: "ZOT_PASSWORD"@,
            source: EnvSourceView::SecretKey { secret: REGISTRY_SECRET@, key: "ZOT_PASSWORD"@ },
        },
    ]
}

/// The backing job for a request, under a given name and owner.
pub open spec fn build_job_spec(spec: NixBuildSpec, name: Seq<char>, owner: OwnerRefView) -> BuildJobView {
    BuildJobView {
        name,
        owner,
        container_name: "builder"@,
        image: BUILDER_IMAGE@,
        env: builder_env_spec(name),
        command: seq!["/bin/bash"@, "-c"@, script_spec(attribute_spec(spec))],
        backoff_limit: 0,
        restart_policy: "Never"@,
        image_pull_secret: PULL_SECRET@,
    }
}

/// A variable of the builder that reads a key of the registry secret.
fn secret_var(key: &str) -> (r: EnvVarSpec)
    ensures
        r@ == (EnvVarView {
            name: key@,
            source: EnvSourceView::SecretKey { secret: REGISTRY_SECRET@, key: key@ },
        }),
{
    EnvVarSpec {
        name: key.to_owned(),
        source: EnvSource::SecretKey { secret: REGISTRY_SECRET.to_owned(), key: key.to_owned() },
    }
}

/// The backing job for a request: deterministic in the request's spec, the
/// job's name and its owner.
pub fn create_build_job(spec: &NixBuildSpec, name: String, owner_reference: OwnerRef) -> (r: BuildJob)
    ensures
        r@ == build_job_spec(*spec, name@, owner_reference@),
{
    let attr = match &spec.nix_attr {
        Some(a) => a.clone(),
        None => DEFAULT_ATTRIBUTE.to_owned(),
    };
    let script = build_script(attr.as_str());
    let mut env: Vec<EnvVarSpec> = Vec::new();
    env.push(EnvVarSpec { name: "BUILD_NAME".to_owned(), source: EnvSource::Literal(name.clone()) });
    env.push(secret_var("ZOT_USERNAME"));
    env.push(secret_var("ZOT_PASSWORD"));
    let mut command: Vec<String> = Vec::new();
    command.push("/bin/bash".to_owned());
    command.push("-c".to_owned());
    command.push(script);
    let r = BuildJob {
        name,
        owner: owner_reference,
        container_name: "builder".to_owned(),
        image: BUILDER_IMAGE.to_owned(),
        env,
        command,
        backoff_limit: 0,
        restart_policy: "Never".to_owned(),
        image_pull_secret: PULL_SECRET.to_owned(),
    };
    assert(r@.env =~= builder_env_spec(name@));
    assert(r@.command =~= seq!["/bin/bash"@, "-c"@, script_spec(attribute_spec(*spec))]);
    r
}

} // verus!
