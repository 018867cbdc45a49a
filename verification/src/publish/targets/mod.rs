//! The publish targets, and building each from its section of the publish configuration.

pub mod devto;
pub mod hashnode;
pub mod platform;

use crate::publish::config::PublishConfig;
use crate::publish::target::{share_client, Target};
use crate::publish::target_kind::TargetKind;
use crate::text::owned;
use vstd::prelude::*;

verus! {

pub open spec fn missing_section_message(kind: TargetKind) -> Seq<char> {
    "no ["@ + kind.name_of() + "] section in .m2s2-publish.toml"@
}

/// `kind` has its section in `config`.
pub open spec fn configured(kind: TargetKind, config: PublishConfig) -> bool {
    match kind {
        TargetKind::Devto => config.devto is Some,
        TargetKind::Hashnode => config.hashnode is Some,
        TargetKind::Platform => config.platform is Some,
    }
}

/// `t` is the target `build_one` makes for `kind` from `config`.
pub open spec fn built_from(t: Target, kind: TargetKind, config: PublishConfig) -> bool {
    match (t, kind) {
        (Target::Devto(d), TargetKind::Devto) => d.api_key == config.devto->0.api_key
            && d.http.base_url@ == devto::DEVTO_BASE_URL@,
        (Target::Hashnode(h), TargetKind::Hashnode) => h.token == config.hashnode->0.token
            && h.publication_id == config.hashnode->0.publication_id && h.http.base_url@
            == hashnode::HASHNODE_ENDPOINT@,
        (Target::Platform(p), TargetKind::Platform) => {
            let cfg = config.platform->0;
            &&& p.token == cfg.token
            &&& p.path@ == platform::normalized_path(
                match cfg.path {
                    Some(x) => Some(x@),
                    None => None,
                },
            )
            &&& p.body_command == cfg.body_command
            &&& p.http.base_url@ == platform::trim_slashes_end(cfg.endpoint@)
        },
        _ => false,
    }
}

/// The target for `kind`, built from its configuration section, sharing `client`.
pub fn build_one(kind: TargetKind, client: &reqwest::Client, config: &PublishConfig) -> (r: Result<
    Target,
    String,
>)
    ensures
        configured(kind, *config) <==> r is Ok,
        r matches Ok(t) ==> built_from(t, kind, *config),
        r matches Err(e) ==> e@ == missing_section_message(kind),
{
    proof {
        reveal_strlit("devto");
        reveal_strlit("hashnode");
        reveal_strlit("platform");
        reveal_strlit("no [devto] section in .m2s2-publish.toml");
        reveal_strlit("no [hashnode] section in .m2s2-publish.toml");
        reveal_strlit("no [platform] section in .m2s2-publish.toml");
        reveal_strlit("no [");
        reveal_strlit("] section in .m2s2-publish.toml");
    }
    match kind {
        TargetKind::Devto => match &config.devto {
            Some(cfg) => Ok(Target::Devto(devto::DevTo::new(share_client(client), cfg))),
            None => Err(owned("no [devto] section in .m2s2-publish.toml")),
        },
        TargetKind::Hashnode => match &config.hashnode {
            Some(cfg) => Ok(Target::Hashnode(hashnode::Hashnode::new(share_client(client), cfg))),
            None => Err(owned("no [hashnode] section in .m2s2-publish.toml")),
        },
        TargetKind::Platform => match &config.platform {
            Some(cfg) => Ok(Target::Platform(platform::Platform::new(share_client(client), cfg))),
            None => Err(owned("no [platform] section in .m2s2-publish.toml")),
        },
    }
}

/// The first kind of `kinds`, from index `i` on, that has no section in `config`.
pub open spec fn first_unconfigured(kinds: Seq<TargetKind>, config: PublishConfig, i: int) -> Option<
    TargetKind,
>
    decreases kinds.len() - i,
{
    if i < 0 || i >= kinds.len() {
        None
    } else if !configured(kinds[i], config) {
        Some(kinds[i])
    } else {
        first_unconfigured(kinds, config, i + 1)
    }
}

/// One target per kind, in order, all sharing `client`; the first kind without a
/// configuration section is an error.
pub fn build_targets(kinds: &Vec<TargetKind>, client: &reqwest::Client, config: &PublishConfig) -> (r:
    Result<Vec<Target>, String>)
    ensures
        match first_unconfigured(kinds@, *config, 0) {
            Some(k) => r matches Err(e) && e@ == missing_section_message(k),
            None => r matches Ok(ts) && ts.len() == kinds.len() && forall|i: int|
                0 <= i < kinds.len() ==> #[trigger] built_from(ts@[i], kinds@[i], *config),
        },
{
    let mut out: Vec<Target> = Vec::new();
    let mut i: usize = 0;
    while i < kinds.len()
        invariant
            i <= kinds.len(),
            out.len() == i,
            forall|j: int| 0 <= j < i ==> #[trigger] built_from(out@[j], kinds@[j], *config),
            first_unconfigured(kinds@, *config, 0) == first_unconfigured(kinds@, *config, i as int),
        decreases kinds.len() - i,
    {
        match build_one(kinds[i], client, config) {
            Ok(t) => {
                out.push(t);
            },
            Err(e) => {
                return Err(e);
            },
        }
        i = i + 1;
    }
    Ok(out)
}


/// Building targets is refused exactly when some requested kind has no configuration section:
/// then for the earliest such kind, every kind before it being configured.
pub proof fn law_build_stops_at_the_first_unconfigured(kinds: Seq<TargetKind>, config: PublishConfig, i: int)
    requires
        0 <= i,
    ensures
        first_unconfigured(kinds, config, i) is None <==> forall|j: int|
            i <= j < kinds.len() ==> configured(#[trigger] kinds[j], config),
        first_unconfigured(kinds, config, i) matches Some(k) ==> exists|j: int|
            i <= j < kinds.len() && #[trigger] kinds[j] == k && !configured(k, config) && forall|m: int|
                i <= m < j ==> configured(#[trigger] kinds[m], config),
    decreases kinds.len() - i,
{
    if i < kinds.len() {
        law_build_stops_at_the_first_unconfigured(kinds, config, i + 1);
        if configured(kinds[i], config) {
            if let Some(k) = first_unconfigured(kinds, config, i) {
                let j = choose|j: int|
                    i + 1 <= j < kinds.len() && #[trigger] kinds[j] == k && !configured(k, config) && forall|m: int|
                        i + 1 <= m < j ==> configured(#[trigger] kinds[m], config);
                assert forall|m: int| i <= m < j implies configured(#[trigger] kinds[m], config) by {
                    if m == i {
                    }
                }
            }
        } else {
            assert(kinds[i] == kinds[i]);
        }
    }
}


/// A reply whose status is not 2xx never counts as published on any target: Dev.to and
/// Hashnode report an error naming the status, and the blog platform reports `409` as the slug
/// being taken and any other such status as an error. A 2xx reply from the blog platform is
/// success: the post was updated when `--update` was given, created otherwise.
pub proof fn law_replies_succeed_only_on_2xx(reply: crate::publish::reply::HttpReply, slug: Seq<char>, update: bool)
    ensures
        (reply.status < 200 || reply.status > 299) ==> {
            &&& devto::devto_outcome(reply) is Err
            &&& hashnode::hashnode_outcome(reply) is Err
            &&& platform::platform_outcome(reply, slug, update) is Err
        },
        devto::devto_outcome(reply) is Ok ==> 200 <= reply.status <= 299,
        hashnode::hashnode_outcome(reply) is Ok ==> 200 <= reply.status <= 299,
        reply.status == 409 ==> platform::platform_outcome(reply, slug, update) == Err::<Seq<char>, Seq<char>>(
            "slug '"@ + slug + "' already exists on the platform blog — rerun with --update to overwrite it"@,
        ),
        200 <= reply.status <= 299 ==> platform::platform_outcome(reply, slug, update) == Ok::<Seq<char>, Seq<char>>(
            if update {
                "updated"@
            } else {
                "created"@
            },
        ),
{
}

} // verus!
