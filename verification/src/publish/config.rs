//! Credentials and endpoints for the publish targets: `.m2s2-publish.toml`, with whole
//! sections optionally supplied by `M2S2_PUBLISH_<TARGET>_<FIELD>` environment variables.

use crate::text::owned;
use vstd::prelude::*;

verus! {

pub const CONFIG_FILE: &'static str = ".m2s2-publish.toml";

pub const DEVTO_API_KEY_VAR: &'static str = "M2S2_PUBLISH_DEVTO_API_KEY";

pub const HASHNODE_TOKEN_VAR: &'static str = "M2S2_PUBLISH_HASHNODE_TOKEN";

pub const HASHNODE_PUBLICATION_ID_VAR: &'static str = "M2S2_PUBLISH_HASHNODE_PUBLICATION_ID";

pub const PLATFORM_ENDPOINT_VAR: &'static str = "M2S2_PUBLISH_PLATFORM_ENDPOINT";

pub const PLATFORM_TOKEN_VAR: &'static str = "M2S2_PUBLISH_PLATFORM_TOKEN";

pub const PLATFORM_PATH_VAR: &'static str = "M2S2_PUBLISH_PLATFORM_PATH";

pub const PLATFORM_BODY_COMMAND_VAR: &'static str = "M2S2_PUBLISH_PLATFORM_BODY_COMMAND";

pub const PARTIAL_HASHNODE_MESSAGE: &'static str = "partial hashnode credentials in the environment — both $M2S2_PUBLISH_HASHNODE_TOKEN and $M2S2_PUBLISH_HASHNODE_PUBLICATION_ID must be set together";

pub const PARTIAL_PLATFORM_MESSAGE: &'static str = "partial platform credentials in the environment — both $M2S2_PUBLISH_PLATFORM_ENDPOINT and $M2S2_PUBLISH_PLATFORM_TOKEN must be set together";

pub struct PublishConfig {
    pub devto: Option<DevToConfig>,
    pub hashnode: Option<HashnodeConfig>,
    pub platform: Option<PlatformConfig>,
}

pub struct DevToConfig {
    pub api_key: String,
}

pub struct HashnodeConfig {
    pub token: String,
    pub publication_id: String,
}

/// Any blog with a dedicated create/update API of the shape this target speaks (JSON body,
/// bearer auth). Nothing about a particular deployment is built into the tool: it all comes
/// from here.
pub struct PlatformConfig {
    /// Base URL of the blog's API, e.g. `https://api.example.com`.
    pub endpoint: String,
    /// Path appended to `endpoint` for both create and update; `/admin/blog` when absent.
    pub path: Option<String>,
    /// Bearer token sent as `Authorization: Bearer <token>`.
    pub token: String,
    /// A shell command that builds the request body from the article instead of the built-in
    /// field mapping.
    pub body_command: Option<String>,
}

impl Default for PublishConfig {
    fn default() -> (r: Self)
        ensures
            r.devto is None,
            r.hashnode is None,
            r.platform is None,
    {
        PublishConfig { devto: None, hashnode: None, platform: None }
    }
}

/// What the environment holds for each `M2S2_PUBLISH_*` variable (`None` when unset).
pub struct EnvValues {
    pub devto_api_key: Option<String>,
    pub hashnode_token: Option<String>,
    pub hashnode_publication_id: Option<String>,
    pub platform_endpoint: Option<String>,
    pub platform_token: Option<String>,
    pub platform_path: Option<String>,
    pub platform_body_command: Option<String>,
}

/// Exactly one of the two values of a pair is present.
pub open spec fn partial(a: Option<String>, b: Option<String>) -> bool {
    a.is_some() != b.is_some()
}

/// The hashnode section is absent and the environment sets only one of its two variables.
pub open spec fn partial_hashnode(cfg: PublishConfig, env: EnvValues) -> bool {
    cfg.hashnode is None && partial(env.hashnode_token, env.hashnode_publication_id)
}

/// The platform section is absent and the environment sets only one of endpoint and token.
pub open spec fn partial_platform(cfg: PublishConfig, env: EnvValues) -> bool {
    cfg.platform is None && partial(env.platform_endpoint, env.platform_token)
}

pub open spec fn devto_after(cfg: PublishConfig, env: EnvValues) -> Option<DevToConfig> {
    match cfg.devto {
        Some(d) => Some(d),
        None => match env.devto_api_key {
            Some(k) => Some(DevToConfig { api_key: k }),
            None => None,
        },
    }
}

pub open spec fn hashnode_after(cfg: PublishConfig, env: EnvValues) -> Option<HashnodeConfig> {
    match cfg.hashnode {
        Some(h) => Some(h),
        None => match (env.hashnode_token, env.hashnode_publication_id) {
            (Some(t), Some(p)) => Some(HashnodeConfig { token: t, publication_id: p }),
            _ => None,
        },
    }
}

pub open spec fn platform_after(cfg: PublishConfig, env: EnvValues) -> Option<PlatformConfig> {
    match cfg.platform {
        Some(p) => Some(p),
        None => match (env.platform_endpoint, env.platform_token) {
            (Some(e), Some(t)) => Some(
                PlatformConfig {
                    endpoint: e,
                    path: env.platform_path,
                    token: t,
                    body_command: env.platform_body_command,
                },
            ),
            _ => None,
        },
    }
}

/// Filling wholly absent sections from `env` turns `cfg` into `new` with outcome `r`. The
/// sections are filled in the order devto, hashnode, platform; a partial pair stops the fill
/// with its error, leaving that section and the ones after it as they were.
pub open spec fn env_applied(
    cfg: PublishConfig,
    env: EnvValues,
    new: PublishConfig,
    r: Result<(), String>,
) -> bool {
    &&& new.devto == devto_after(cfg, env)
    &&& if partial_hashnode(cfg, env) {
        &&& new.hashnode == cfg.hashnode
        &&& new.platform == cfg.platform
        &&& r is Err
        &&& r->Err_0@ == PARTIAL_HASHNODE_MESSAGE@
    } else {
        &&& new.hashnode == hashnode_after(cfg, env)
        &&& if partial_platform(cfg, env) {
            &&& new.platform == cfg.platform
            &&& r is Err
            &&& r->Err_0@ == PARTIAL_PLATFORM_MESSAGE@
        } else {
            &&& new.platform == platform_after(cfg, env)
            &&& r is Ok
        }
    }
}

impl PublishConfig {
    /// For each target whose section is entirely absent, take it from the environment values
    /// instead (both members of a credential pair, or neither). A section that is present is
    /// never touched, even where the environment sets its variables too.
    pub fn apply_env_values(&mut self, env: EnvValues) -> (r: Result<(), String>)
        ensures
            env_applied(*old(self), env, *final(self), r),
    {
        let EnvValues {
            devto_api_key,
            hashnode_token,
            hashnode_publication_id,
            platform_endpoint,
            platform_token,
            platform_path,
            platform_body_command,
        } = env;
        if self.devto.is_none() {
            self.devto = match devto_api_key {
                Some(api_key) => Some(DevToConfig { api_key }),
                None => None,
            };
        }
        if self.hashnode.is_none() {
            self.hashnode = match (hashnode_token, hashnode_publication_id) {
                (Some(token), Some(publication_id)) => Some(HashnodeConfig { token, publication_id }),
                (None, None) => None,
                _ => {
                    return Err(owned(PARTIAL_HASHNODE_MESSAGE));
                },
            };
        }
        if self.platform.is_none() {
            self.platform = match (platform_endpoint, platform_token) {
                (Some(endpoint), Some(token)) => Some(
                    PlatformConfig {
                        endpoint,
                        token,
                        path: platform_path,
                        body_command: platform_body_command,
                    },
                ),
                (None, None) => None,
                _ => {
                    return Err(owned(PARTIAL_PLATFORM_MESSAGE));
                },
            };
        }
        Ok(())
    }

    /// `apply_env_values` on what `get` returns for each variable that matters: the variables
    /// of a section are looked up only when that section is absent, and the platform's `path`
    /// and `body_command` only when its endpoint and token are both set.
    pub fn apply_env_fallbacks<F: Fn(&str) -> Option<String>>(&mut self, get: F) -> (r: Result<
        (),
        String,
    >)
        requires
            forall|k: &str| call_requires(get, (k,)),
        ensures
            exists|env: EnvValues|
                #![trigger fetched_by(get, *old(self), env)]
                fetched_by(get, *old(self), env) && env_applied(*old(self), env, *final(self), r),
    {
        let ghost before = *self;
        let devto_api_key = if self.devto.is_none() {
            get(DEVTO_API_KEY_VAR)
        } else {
            None
        };
        let (hashnode_token, hashnode_publication_id) = if self.hashnode.is_none() {
            (get(HASHNODE_TOKEN_VAR), get(HASHNODE_PUBLICATION_ID_VAR))
        } else {
            (None, None)
        };
        let (platform_endpoint, platform_token) = if self.platform.is_none() {
            (get(PLATFORM_ENDPOINT_VAR), get(PLATFORM_TOKEN_VAR))
        } else {
            (None, None)
        };
        let (platform_path, platform_body_command) = if platform_endpoint.is_some()
            && platform_token.is_some() {
            (get(PLATFORM_PATH_VAR), get(PLATFORM_BODY_COMMAND_VAR))
        } else {
            (None, None)
        };
        let env = EnvValues {
            devto_api_key,
            hashnode_token,
            hashnode_publication_id,
            platform_endpoint,
            platform_token,
            platform_path,
            platform_body_command,
        };
        let ghost env_seen = env;
        let r = self.apply_env_values(env);
        assert(fetched_by(get, before, env_seen));
        r
    }
}

/// `value` is what `get` may return for `key` when the lookup happens, and `None` when it
/// does not.
pub open spec fn looked_up<F: Fn(&str) -> Option<String>>(
    get: F,
    happens: bool,
    key: &str,
    value: Option<String>,
) -> bool {
    if happens {
        call_ensures(get, (key,), value)
    } else {
        value is None
    }
}

/// `env` holds what `get` returned for the variables that filling `cfg` looks up.
pub open spec fn fetched_by<F: Fn(&str) -> Option<String>>(
    get: F,
    cfg: PublishConfig,
    env: EnvValues,
) -> bool {
    let both = env.platform_endpoint is Some && env.platform_token is Some;
    &&& looked_up(get, cfg.devto is None, DEVTO_API_KEY_VAR, env.devto_api_key)
    &&& looked_up(get, cfg.hashnode is None, HASHNODE_TOKEN_VAR, env.hashnode_token)
    &&& looked_up(
        get,
        cfg.hashnode is None,
        HASHNODE_PUBLICATION_ID_VAR,
        env.hashnode_publication_id,
    )
    &&& looked_up(get, cfg.platform is None, PLATFORM_ENDPOINT_VAR, env.platform_endpoint)
    &&& looked_up(get, cfg.platform is None, PLATFORM_TOKEN_VAR, env.platform_token)
    &&& looked_up(get, both, PLATFORM_PATH_VAR, env.platform_path)
    &&& looked_up(get, both, PLATFORM_BODY_COMMAND_VAR, env.platform_body_command)
}

/// Filling from the environment never touches a section the configuration already has, and
/// fills nothing when the environment has nothing for the absent sections.
pub proof fn law_present_sections_kept(
    cfg: PublishConfig,
    env: EnvValues,
    new: PublishConfig,
    r: Result<(), String>,
)
    requires
        env_applied(cfg, env, new, r),
    ensures
        cfg.devto is Some ==> new.devto == cfg.devto,
        cfg.hashnode is Some ==> new.hashnode == cfg.hashnode,
        cfg.platform is Some ==> new.platform == cfg.platform,
        env.devto_api_key is None ==> new.devto == cfg.devto,
        env.hashnode_token is None && env.hashnode_publication_id is None ==> new.hashnode
            == cfg.hashnode,
        env.platform_endpoint is None && env.platform_token is None ==> new.platform
            == cfg.platform,
        r is Err ==> (partial_hashnode(cfg, env) || partial_platform(cfg, env)),
{
}

} // verus!
