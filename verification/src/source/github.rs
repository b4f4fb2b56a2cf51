use vstd::prelude::*;
use vstd::string::StringExecFns;

use crate::source::check_url;
use crate::source::derive_file_name;
use crate::source::first_match;
use crate::source::is_success;
use crate::source::regex_compiles;
use crate::source::res_view;
use crate::source::resolve_link;
use crate::source::spec_file_name;
use crate::source::status_success;
use crate::source::url_parses;
use crate::source::FetchOutcome;
use crate::source::Pattern;
use crate::source::SourceError;

verus! {

/// The GitHub-style release shape: one release object holding an ordered
/// list of assets, each exposing one download URL.
#[derive(Default, Debug, Clone, PartialEq)]
pub struct Root {
    pub assets: Vec<Asset>,
}

#[derive(Default, Debug, Clone, PartialEq)]
pub struct Asset {
    pub browser_download_url: String,
}

/// A GitHub-style source descriptor: a repository `owner/name` and a
/// mandatory pattern.
#[derive(Debug, PartialEq)]
pub struct GithubConfig {
    pub repo: String,
    pub reg: String,
}

impl Clone for GithubConfig {
    fn clone(&self) -> (r: Self)
        ensures
            r.repo@ == self.repo@,
            r.reg@ == self.reg@,
    {
        GithubConfig { repo: self.repo.clone(), reg: self.reg.clone() }
    }
}

/// The mathematical model of a constructed GitHub-style provider: its
/// metadata endpoint and the pattern text its matcher was compiled from.
pub ghost struct GithubModel {
    pub api: Seq<char>,
    pub reg: Seq<char>,
}

/// The fixed REST template with the repository spliced in.
pub open spec fn github_api(repo: Seq<char>) -> Seq<char> {
    "https://api.github.com/repos/"@ + repo + "/releases/latest"@
}

/// What constructing a provider from a descriptor yields: the endpoint must
/// parse as a URL and the pattern must compile, checked in that order.
pub open spec fn spec_github_new(config: GithubConfig) -> Result<GithubModel, SourceError> {
    if !url_parses(github_api(config.repo@)) {
        Err(SourceError::InvalidUrl)
    } else if !regex_compiles(config.reg@) {
        Err(SourceError::InvalidPattern)
    } else {
        Ok(GithubModel { api: github_api(config.repo@), reg: config.reg@ })
    }
}

pub open spec fn github_new_view(r: Result<Github, SourceError>) -> Result<
    GithubModel,
    SourceError,
> {
    match r {
        Ok(g) => Ok(g@),
        Err(e) => Err(e),
    }
}

/// The ordered candidate URLs a GitHub-style release exposes.
pub open spec fn github_candidates(root: Root) -> Seq<Seq<char>> {
    root.assets@.map_values(|a: Asset| a.browser_download_url@)
}

/// What resolving a link from one metadata call yields: `Fetch` when the
/// transport failed or the status was not success, `Parse` when the body
/// did not conform, otherwise the first-match policy over the release's
/// candidate URLs, with `NoMatch` when nothing passes.
pub open spec fn spec_github_link(g: GithubModel, fetch: FetchOutcome<Root>) -> Result<
    Seq<char>,
    SourceError,
> {
    match fetch {
        FetchOutcome::Failed => Err(SourceError::Fetch),
        FetchOutcome::Response { status, body } => {
            if !status_success(status) {
                Err(SourceError::Fetch)
            } else {
                match body {
                    None => Err(SourceError::Parse),
                    Some(root) => match first_match(Some(g.reg), github_candidates(root)) {
                        Some(link) => Ok(link),
                        None => Err(SourceError::NoMatch),
                    },
                }
            }
        },
    }
}

/// Resolving and then deriving the file name from the resolved link.
pub open spec fn spec_github_sync(g: GithubModel, fetch: FetchOutcome<Root>) -> Result<
    Seq<char>,
    SourceError,
> {
    match spec_github_link(g, fetch) {
        Ok(link) => spec_file_name(link),
        Err(e) => Err(e),
    }
}

/// Law: a provider that constructs holds an endpoint that parses as a URL
/// and begins with `https://`.
pub proof fn lemma_github_endpoint_https(config: GithubConfig, m: GithubModel)
    requires
        spec_github_new(config) == Ok::<GithubModel, SourceError>(m),
    ensures
        url_parses(m.api),
        m.api.len() >= 8,
        m.api.subrange(0, 8) == "https://"@,
{
    reveal_strlit("https://api.github.com/repos/");
    reveal_strlit("https://");
    assert(m.api.subrange(0, 8) =~= "https://"@);
}

/// Law: GitHub-style metadata whose release exposes no assets resolves to
/// `NoMatch`, whatever the pattern.
pub proof fn lemma_github_empty_assets_no_match(g: GithubModel, status: u16, root: Root)
    requires
        status_success(status),
        root.assets@.len() == 0,
    ensures
        spec_github_link(g, FetchOutcome::Response { status, body: Some(root) }) == Err::<
            Seq<char>,
            SourceError,
        >(SourceError::NoMatch),
{
    assert(github_candidates(root).len() == 0);
}

/// A constructed GitHub-style provider: a validated metadata endpoint and a
/// compiled pattern, read-only for the run's duration.
pub struct Github {
    api: String,
    reg: Pattern,
}

impl View for Github {
    type V = GithubModel;

    closed spec fn view(&self) -> GithubModel {
        GithubModel { api: self.api@, reg: self.reg@ }
    }
}

fn candidate_urls(root: &Root) -> (r: Vec<String>)
    ensures
        r@.map_values(|s: String| s@) == github_candidates(*root),
{
    let ghost f = |a: Asset| a.browser_download_url@;
    let ghost g = |s: String| s@;
    let mut urls: Vec<String> = Vec::new();
    let mut i: usize = 0;
    proof {
        assert(urls@.map_values(g) =~= root.assets@.take(0).map_values(f));
    }
    while i < root.assets.len()
        invariant
            i <= root.assets.len(),
            f == (|a: Asset| a.browser_download_url@),
            g == (|s: String| s@),
            urls@.map_values(g) == root.assets@.take(i as int).map_values(f),
        decreases root.assets.len() - i,
    {
        let ghost prev = urls@;
        let u = root.assets[i].browser_download_url.clone();
        let ghost ux = u;
        urls.push(u);
        proof {
            prev.lemma_push_map_commute(g, ux);
            root.assets@.lemma_map_take_succ(f, i as int);
            assert(urls@.map_values(g) =~= root.assets@.take(i + 1).map_values(f));
        }
        i += 1;
    }
    proof {
        assert(root.assets@.take(root.assets@.len() as int) =~= root.assets@);
        assert(root.assets@.map_values(f) =~= github_candidates(*root));
    }
    urls
}

impl Github {
    /// Construct a provider from a descriptor: splice the repository into
    /// the fixed endpoint template, validate it, compile the pattern. No
    /// network I/O; an invalid input yields its error, never a panic.
    pub fn new(config: GithubConfig) -> (r: Result<Github, SourceError>)
        ensures
            github_new_view(r) == spec_github_new(config),
    {
        let api = "https://api.github.com/repos/".to_owned().concat(config.repo.as_str()).concat(
            "/releases/latest",
        );
        if !check_url(api.as_str()) {
            return Err(SourceError::InvalidUrl);
        }
        match Pattern::new(config.reg.as_str()) {
            Ok(reg) => Ok(Github { api, reg }),
            Err(e) => Err(e),
        }
    }

    /// The metadata endpoint this provider queries.
    pub fn api(&self) -> (r: &str)
        ensures
            r@ == self@.api,
    {
        self.api.as_str()
    }

    /// GitHub's API refuses anonymous requests without a `User-Agent`, so
    /// the metadata call must carry this non-empty header value.
    pub fn user_agent(&self) -> (r: &'static str)
        ensures
            r@.len() > 0,
    {
        proof {
            reveal_strlit("reqwest");
        }
        "reqwest"
    }

    /// Decide the outcome of one metadata call: exactly the first candidate
    /// URL the pattern accepts, or the error owed for this fetch outcome.
    pub fn link(&self, fetch: &FetchOutcome<Root>) -> (r: Result<String, SourceError>)
        ensures
            res_view(r) == spec_github_link(self@, *fetch),
    {
        match fetch {
            FetchOutcome::Failed => Err(SourceError::Fetch),
            FetchOutcome::Response { status, body } => {
                if !is_success(*status) {
                    Err(SourceError::Fetch)
                } else {
                    match body {
                        None => Err(SourceError::Parse),
                        Some(root) => {
                            let candidates = candidate_urls(root);
                            match resolve_link(Some(&self.reg), &candidates) {
                                Some(link) => Ok(link),
                                None => Err(SourceError::NoMatch),
                            }
                        },
                    }
                }
            },
        }
    }

    /// Resolve a link, then derive the local file name from it: the final
    /// non-empty path segment of the resolved URL.
    pub fn sync(&self, fetch: &FetchOutcome<Root>) -> (r: Result<String, SourceError>)
        ensures
            res_view(r) == spec_github_sync(self@, *fetch),
    {
        match self.link(fetch) {
            Ok(link) => derive_file_name(link.as_str()),
            Err(e) => Err(e),
        }
    }
}

} // verus!
