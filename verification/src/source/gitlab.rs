use vstd::prelude::*;
use vstd::string::StringExecFns;

use crate::source::check_url;
use crate::source::derive_file_name;
use crate::source::first_match;
use crate::source::is_success;
use crate::source::regex_compiles;
use crate::source::res_view;
use crate::source::resolve_link;
use crate::source::spec_file_name;
use crate::source::status_success;
use crate::source::url_parses;
use crate::source::FetchOutcome;
use crate::source::Pattern;
use crate::source::SourceError;

verus! {

/// The GitLab-style release shape: an ordered list of releases, of which
/// only the first (most recent) is consulted.
pub type Root = Vec<Root2>;

#[derive(Default, Debug, Clone, PartialEq)]
pub struct Root2 {
    pub assets: Assets,
}

#[derive(Default, Debug, Clone, PartialEq)]
pub struct Assets {
    pub links: Vec<Link>,
}

#[derive(Default, Debug, Clone, PartialEq)]
pub struct Link {
    pub id: i64,
    pub name: String,
    pub url: String,
    pub direct_asset_url: String,
    pub link_type: String,
}

/// A GitLab-style source descriptor: a host, a project id and an optional
/// pattern — absence means "accept the first asset".
#[derive(Debug, PartialEq)]
pub struct GitlabConfig {
    pub host: String,
    pub id: String,
    pub reg: Option<String>,
}

impl Clone for GitlabConfig {
    fn clone(&self) -> (r: Self)
        ensures
            r.host@ == self.host@,
            r.id@ == self.id@,
            r.reg is Some <==> self.reg is Some,
            r.reg is Some ==> r.reg->0@ == self.reg->0@,
    {
        GitlabConfig {
            host: self.host.clone(),
            id: self.id.clone(),
            reg: match &self.reg {
                Some(s) => Some(s.clone()),
                None => None,
            },
        }
    }
}

/// The mathematical model of a constructed GitLab-style provider: its
/// metadata endpoint and, when a pattern was configured, the pattern text.
pub ghost struct GitlabModel {
    pub api: Seq<char>,
    pub reg: Option<Seq<char>>,
}

/// The fixed REST template with the host and project id spliced in.
pub open spec fn gitlab_api(host: Seq<char>, id: Seq<char>) -> Seq<char> {
    "https://"@ + host + "/api/v4/projects/"@ + id + "/releases"@
}

/// What constructing a provider from a descriptor yields: the endpoint
/// must parse as a URL and the pattern, when present, must compile,
/// checked in that order.
pub open spec fn spec_gitlab_new(config: GitlabConfig) -> Result<GitlabModel, SourceError> {
    if !url_parses(gitlab_api(config.host@, config.id@)) {
        Err(SourceError::InvalidUrl)
    } else {
        match config.reg {
            Some(reg) => if !regex_compiles(reg@) {
                Err(SourceError::InvalidPattern)
            } else {
                Ok(
                    GitlabModel {
                        api: gitlab_api(config.host@, config.id@),
                        reg: Some(reg@),
                    },
                )
            },
            None => Ok(GitlabModel { api: gitlab_api(config.host@, config.id@), reg: None }),
        }
    }
}

pub open spec fn gitlab_new_view(r: Result<Gitlab, SourceError>) -> Result<
    GitlabModel,
    SourceError,
> {
    match r {
        Ok(g) => Ok(g@),
        Err(e) => Err(e),
    }
}

/// The ordered candidate URLs one GitLab-style release exposes through its
/// asset links.
pub open spec fn gitlab_candidates(release: Root2) -> Seq<Seq<char>> {
    release.assets.links@.map_values(|l: Link| l.direct_asset_url@)
}

/// What resolving a link from one metadata call yields: `Fetch` when the
/// transport failed or the status was not success, `Parse` when the body
/// did not conform, `NoReleases` when the release list is empty, otherwise
/// the first-match policy over the first release's candidate URLs, with
/// `NoMatch` when nothing passes.
pub open spec fn spec_gitlab_link(g: GitlabModel, fetch: FetchOutcome<Root>) -> Result<
    Seq<char>,
    SourceError,
> {
    match fetch {
        FetchOutcome::Failed => Err(SourceError::Fetch),
        FetchOutcome::Response { status, body } => {
            if !status_success(status) {
                Err(SourceError::Fetch)
            } else {
                match body {
                    None => Err(SourceError::Parse),
                    Some(releases) => if releases@.len() == 0 {
                        Err(SourceError::NoReleases)
                    } else {
                        match first_match(g.reg, gitlab_candidates(releases@[0])) {
                            Some(link) => Ok(link),
                            None => Err(SourceError::NoMatch),
                        }
                    },
                }
            }
        },
    }
}

/// Resolving and then deriving the file name from the resolved link.
pub open spec fn spec_gitlab_sync(g: GitlabModel, fetch: FetchOutcome<Root>) -> Result<
    Seq<char>,
    SourceError,
> {
    match spec_gitlab_link(g, fetch) {
        Ok(link) => spec_file_name(link),
        Err(e) => Err(e),
    }
}

/// Law: a provider that constructs holds an endpoint that parses as a URL
/// and begins with `https://`.
pub proof fn lemma_gitlab_endpoint_https(config: GitlabConfig, m: GitlabModel)
    requires
        spec_gitlab_new(config) == Ok::<GitlabModel, SourceError>(m),
    ensures
        url_parses(m.api),
        m.api.len() >= 8,
        m.api.subrange(0, 8) == "https://"@,
{
    reveal_strlit("https://");
    assert(m.api.subrange(0, 8) =~= "https://"@);
}

/// Law: GitLab-style metadata with zero releases resolves to `NoReleases`,
/// whatever the pattern.
pub proof fn lemma_gitlab_no_releases(g: GitlabModel, status: u16, releases: Root)
    requires
        status_success(status),
        releases@.len() == 0,
    ensures
        spec_gitlab_link(g, FetchOutcome::Response { status, body: Some(releases) }) == Err::<
            Seq<char>,
            SourceError,
        >(SourceError::NoReleases),
{
}

/// Law: a release that exists but exposes no links resolves to `NoMatch` —
/// distinct from the `NoReleases` of an empty release list.
pub proof fn lemma_gitlab_empty_links_no_match(g: GitlabModel, status: u16, releases: Root)
    requires
        status_success(status),
        releases@.len() > 0,
        releases@[0].assets.links@.len() == 0,
    ensures
        spec_gitlab_link(g, FetchOutcome::Response { status, body: Some(releases) }) == Err::<
            Seq<char>,
            SourceError,
        >(SourceError::NoMatch),
{
    assert(gitlab_candidates(releases@[0]).len() == 0);
}

/// A constructed GitLab-style provider: a validated metadata endpoint and
/// an optional compiled pattern, read-only for the run's duration.
pub struct Gitlab {
    api: String,
    reg: Option<Pattern>,
}

impl View for Gitlab {
    type V = GitlabModel;

    closed spec fn view(&self) -> GitlabModel {
        GitlabModel {
            api: self.api@,
            reg: match self.reg {
                Some(p) => Some(p@),
                None => None,
            },
        }
    }
}

fn candidate_urls(release: &Root2) -> (r: Vec<String>)
    ensures
        r@.map_values(|s: String| s@) == gitlab_candidates(*release),
{
    let ghost f = |l: Link| l.direct_asset_url@;
    let ghost g = |s: String| s@;
    let mut urls: Vec<String> = Vec::new();
    let mut i: usize = 0;
    proof {
        assert(urls@.map_values(g) =~= release.assets.links@.take(0).map_values(f));
    }
    while i < release.assets.links.len()
        invariant
            i <= release.assets.links.len(),
            f == (|l: Link| l.direct_asset_url@),
            g == (|s: String| s@),
            urls@.map_values(g) == release.assets.links@.take(i as int).map_values(f),
        decreases release.assets.links.len() - i,
    {
        let ghost prev = urls@;
        let u = release.assets.links[i].direct_asset_url.clone();
        let ghost ux = u;
        urls.push(u);
        proof {
            prev.lemma_push_map_commute(g, ux);
            release.assets.links@.lemma_map_take_succ(f, i as int);
            assert(urls@.map_values(g) =~= release.assets.links@.take(i + 1).map_values(f));
        }
        i += 1;
    }
    proof {
        assert(release.assets.links@.take(release.assets.links@.len() as int)
            =~= release.assets.links@);
        assert(release.assets.links@.map_values(f) =~= gitlab_candidates(*release));
    }
    urls
}

impl Gitlab {
    /// Construct a provider from a descriptor: splice the host and project
    /// id into the fixed endpoint template, validate it, compile the
    /// pattern when one is configured. No network I/O; an invalid input
    /// yields its error, never a panic.
    pub fn new(config: GitlabConfig) -> (r: Result<Gitlab, SourceError>)
        ensures
            gitlab_new_view(r) == spec_gitlab_new(config),
    {
        let api = "https://".to_owned().concat(config.host.as_str()).concat(
            "/api/v4/projects/",
        ).concat(config.id.as_str()).concat("/releases");
        if !check_url(api.as_str()) {
            return Err(SourceError::InvalidUrl);
        }
        let reg = match config.reg {
            Some(source) => match Pattern::new(source.as_str()) {
                Ok(p) => Some(p),
                Err(e) => {
                    return Err(e);
                },
            },
            None => None,
        };
        Ok(Gitlab { api, reg })
    }

    /// The metadata endpoint this provider queries.
    pub fn api(&self) -> (r: &str)
        ensures
            r@ == self@.api,
    {
        self.api.as_str()
    }

    /// Decide the outcome of one metadata call: exactly the first candidate
    /// URL of the most recent release that the optional pattern accepts, or
    /// the error owed for this fetch outcome.
    pub fn link(&self, fetch: &FetchOutcome<Root>) -> (r: Result<String, SourceError>)
        ensures
            res_view(r) == spec_gitlab_link(self@, *fetch),
    {
        match fetch {
            FetchOutcome::Failed => Err(SourceError::Fetch),
            FetchOutcome::Response { status, body } => {
                if !is_success(*status) {
                    Err(SourceError::Fetch)
                } else {
                    match body {
                        None => Err(SourceError::Parse),
                        Some(releases) => {
                            if releases.len() == 0 {
                                Err(SourceError::NoReleases)
                            } else {
                                let candidates = candidate_urls(&releases[0]);
                                let pattern: Option<&Pattern> = match &self.reg {
                                    Some(p) => Some(p),
                                    None => None,
                                };
                                match resolve_link(pattern, &candidates) {
                                    Some(link) => Ok(link),
                                    None => Err(SourceError::NoMatch),
                                }
                            }
                        },
                    }
                }
            },
        }
    }

    /// Resolve a link, then derive the local file name from it: the final
    /// non-empty path segment of the resolved URL.
    pub fn sync(&self, fetch: &FetchOutcome<Root>) -> (r: Result<String, SourceError>)
        ensures
            res_view(r) == spec_gitlab_sync(self@, *fetch),
    {
        match self.link(fetch) {
            Ok(link) => derive_file_name(link.as_str()),
            Err(e) => Err(e),
        }
    }
}

} // verus!
