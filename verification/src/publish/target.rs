//! The publish targets as one closed set: building each from its configuration section,
//! and preparing every request before anything is sent.

use crate::publish::article::Article;
use crate::publish::target_kind::TargetKind;
use crate::publish::targets::devto::{self, DevTo};
use crate::publish::targets::hashnode::{self, Hashnode};
use crate::publish::targets::platform::{self, Platform};
use vstd::prelude::*;

verus! {

#[verifier::external_type_specification]
#[verifier::external_body]
pub struct ExClient(reqwest::Client);

/// `reqwest::Client::clone`: another handle on the same connection pool. Nothing is stated of
/// the handle; the library only carries it to where requests are sent.
#[verifier::external_body]
pub(crate) fn share_client(client: &reqwest::Client) -> reqwest::Client {
    client.clone()
}

#[derive(Debug)]
pub struct PublishOutcome {
    /// Human-readable result, e.g. the published article's URL.
    pub message: String,
}

/// The client and base URL every target needs; the client is shared by all targets rather
/// than each building its own.
pub struct HttpTarget {
    pub client: reqwest::Client,
    pub base_url: String,
}

impl HttpTarget {
    pub fn new(client: reqwest::Client, base_url: String) -> (r: Self)
        ensures
            r.base_url == base_url,
    {
        HttpTarget { client, base_url }
    }
}

/// A constructed, ready-to-use publish target, one variant per [`TargetKind`].
pub enum Target {
    Devto(DevTo),
    Hashnode(Hashnode),
    Platform(Platform),
}

/// What `Target::prepare` builds, one variant per [`TargetKind`].
#[derive(Debug)]
pub enum PreparedTarget {
    Devto(devto::PreparedRequest),
    Hashnode(hashnode::PreparedRequest),
    Platform(platform::PreparedRequest),
}

impl PreparedTarget {
    pub open spec fn kind_of(self) -> TargetKind {
        match self {
            PreparedTarget::Devto(_) => TargetKind::Devto,
            PreparedTarget::Hashnode(_) => TargetKind::Hashnode,
            PreparedTarget::Platform(_) => TargetKind::Platform,
        }
    }
}

impl Target {
    pub open spec fn kind_of(self) -> TargetKind {
        match self {
            Target::Devto(_) => TargetKind::Devto,
            Target::Hashnode(_) => TargetKind::Hashnode,
            Target::Platform(_) => TargetKind::Platform,
        }
    }

    pub fn kind(&self) -> (r: TargetKind)
        ensures
            r == self.kind_of(),
    {
        match self {
            Target::Devto(_) => TargetKind::Devto,
            Target::Hashnode(_) => TargetKind::Hashnode,
            Target::Platform(_) => TargetKind::Platform,
        }
    }

    /// Why `prepare` refuses `article`, if it does.
    pub open spec fn prepare_error(self, article: Article, update: bool) -> Option<Seq<char>> {
        match self {
            Target::Devto(t) => t.prepare_error(article, update),
            Target::Hashnode(t) => t.prepare_error(article, update),
            Target::Platform(_) => None,
        }
    }

    /// `p` is the request `prepare` builds for `article`.
    pub open spec fn prepared_as(self, article: Article, update: bool, p: PreparedTarget) -> bool {
        match (self, p) {
            (Target::Devto(t), PreparedTarget::Devto(q)) => t.prepared_as(article, q),
            (Target::Hashnode(t), PreparedTarget::Hashnode(q)) => t.prepared_as(article, q),
            (Target::Platform(t), PreparedTarget::Platform(q)) => t.prepared_as(article, update, q),
            _ => false,
        }
    }

    /// Checks `article` and `update` against this target (`--update` support, and whether a
    /// local `cover_image` is acceptable) and builds the request it will send, without any
    /// network access. Every selected target is prepared before any of them publishes, so a
    /// later target's local failure cannot follow an earlier target's real post.
    pub fn prepare(&self, article: &Article, update: bool) -> (r: Result<PreparedTarget, String>)
        ensures
            match r {
                Ok(p) => self.prepare_error(*article, update) is None && self.prepared_as(
                    *article,
                    update,
                    p,
                ),
                Err(e) => self.prepare_error(*article, update) == Some(e@),
            },
            r matches Ok(p) ==> p.kind_of() == self.kind_of(),
    {
        match self {
            Target::Devto(t) => match t.prepare(article, update) {
                Ok(p) => Ok(PreparedTarget::Devto(p)),
                Err(e) => Err(e),
            },
            Target::Hashnode(t) => match t.prepare(article, update) {
                Ok(p) => Ok(PreparedTarget::Hashnode(p)),
                Err(e) => Err(e),
            },
            Target::Platform(t) => Ok(PreparedTarget::Platform(t.prepare(article, update))),
        }
    }
}

/// The error of the first target of `ts`, from index `i` on, whose preparation fails.
pub open spec fn first_prepare_error(ts: Seq<Target>, article: Article, update: bool, i: int) -> Option<
    Seq<char>,
>
    decreases ts.len() - i,
{
    if i < 0 || i >= ts.len() {
        None
    } else {
        match ts[i].prepare_error(article, update) {
            Some(e) => Some(e),
            None => first_prepare_error(ts, article, update, i + 1),
        }
    }
}

/// Prepares every target in order, stopping at the first failure, which is returned.
pub fn prepare_all(targets: &Vec<Target>, article: &Article, update: bool) -> (r: Result<
    Vec<PreparedTarget>,
    String,
>)
    ensures
        match r {
            Ok(ps) => ps.len() == targets.len() && forall|i: int|
                0 <= i < targets.len() ==> #[trigger] targets@[i].prepared_as(
                    *article,
                    update,
                    ps@[i],
                ),
            Err(e) => first_prepare_error(targets@, *article, update, 0) == Some(e@),
        },
        r is Ok <==> first_prepare_error(targets@, *article, update, 0) is None,
{
    let mut out: Vec<PreparedTarget> = Vec::new();
    let mut i: usize = 0;
    while i < targets.len()
        invariant
            i <= targets.len(),
            out.len() == i,
            forall|j: int|
                0 <= j < i ==> #[trigger] targets@[j].prepared_as(*article, update, out@[j]),
            first_prepare_error(targets@, *article, update, 0) == first_prepare_error(
                targets@,
                *article,
                update,
                i as int,
            ),
        decreases targets.len() - i,
    {
        match targets[i].prepare(article, update) {
            Ok(p) => {
                out.push(p);
            },
            Err(e) => {
                return Err(e);
            },
        }
        i = i + 1;
    }
    Ok(out)
}


/// Publishing prepares every target before sending anything, and is refused exactly when some
/// target cannot be prepared: then with the error of the earliest such target, every target
/// before it having prepared.
pub proof fn law_prepare_all_stops_at_the_first_failure(ts: Seq<Target>, article: Article, update: bool, i: int)
    requires
        0 <= i,
    ensures
        first_prepare_error(ts, article, update, i) is None <==> forall|j: int|
            i <= j < ts.len() ==> (#[trigger] ts[j].prepare_error(article, update)) is None,
        first_prepare_error(ts, article, update, i) matches Some(e) ==> exists|j: int|
            i <= j < ts.len() && #[trigger] ts[j].prepare_error(article, update) == Some(e) && forall|k: int|
                i <= k < j ==> (#[trigger] ts[k].prepare_error(article, update)) is None,
    decreases ts.len() - i,
{
    if i < ts.len() {
        law_prepare_all_stops_at_the_first_failure(ts, article, update, i + 1);
        if ts[i].prepare_error(article, update) is None {
            if let Some(e) = first_prepare_error(ts, article, update, i) {
                let j = choose|j: int|
                    i + 1 <= j < ts.len() && #[trigger] ts[j].prepare_error(article, update) == Some(e) && forall|k: int|
                        i + 1 <= k < j ==> (#[trigger] ts[k].prepare_error(article, update)) is None;
                assert forall|k: int| i <= k < j implies (#[trigger] ts[k].prepare_error(article, update)) is None by {
                    if k == i {
                    }
                }
            }
        }
    }
}

} // verus!
