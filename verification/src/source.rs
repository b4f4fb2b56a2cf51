use vstd::prelude::*;
use vstd::string::StrSliceExecFns;

use crate::config::Config;

pub mod github;
pub mod gitlab;

pub use github::Asset;
pub use github::Github;
pub use github::GithubConfig;
pub use github::Root;
pub use gitlab::Assets;
pub use gitlab::Gitlab;
pub use gitlab::GitlabConfig;
pub use gitlab::Link;
pub use gitlab::Root2;

verus! {

/// One error per way a source can fail: construction (`InvalidUrl`,
/// `InvalidPattern`), the metadata call (`Fetch`, `Parse`), link selection
/// (`NoReleases`, `NoMatch`) and file-name derivation (`NoFileName`).
/// Every error is a value tied to its own source; none aborts the others.
#[derive(Clone, Copy, Debug, PartialEq, Eq, Structural)]
pub enum SourceError {
    InvalidUrl,
    InvalidPattern,
    Fetch,
    Parse,
    NoReleases,
    NoMatch,
    NoFileName,
}

pub open spec fn spec_message(e: SourceError) -> Seq<char> {
    match e {
        SourceError::InvalidUrl => "invalid url"@,
        SourceError::InvalidPattern => "invalid pattern"@,
        SourceError::Fetch => "failed to get metadata"@,
        SourceError::Parse => "unexpected metadata shape"@,
        SourceError::NoReleases => "no releases"@,
        SourceError::NoMatch => "no assets found"@,
        SourceError::NoFileName => "no last path segment found"@,
    }
}

impl SourceError {
    /// A short description, one per variant, for the caller's report line.
    pub fn message(&self) -> (r: &'static str)
        ensures
            r@ == spec_message(*self),
    {
        match self {
            SourceError::InvalidUrl => "invalid url",
            SourceError::InvalidPattern => "invalid pattern",
            SourceError::Fetch => "failed to get metadata",
            SourceError::Parse => "unexpected metadata shape",
            SourceError::NoReleases => "no releases",
            SourceError::NoMatch => "no assets found",
            SourceError::NoFileName => "no last path segment found",
        }
    }
}

/// Whether `regex::Regex::new` accepts the pattern; a function of the
/// pattern string alone.
pub uninterp spec fn regex_compiles(pattern: Seq<char>) -> bool;

/// What `regex::Regex::is_match` returns for a compiled pattern and a
/// haystack; a function of the two strings alone.
pub uninterp spec fn regex_match(pattern: Seq<char>, text: Seq<char>) -> bool;

#[verifier::external_type_specification]
#[verifier::external_body]
pub struct ExRegex(regex::Regex);

/// A compiled matcher together with the pattern text it was compiled from.
/// Its view is that pattern text; what matching means is `regex_match`.
pub struct Pattern {
    source: String,
    compiled: regex::Regex,
}

impl View for Pattern {
    type V = Seq<char>;

    closed spec fn view(&self) -> Seq<char> {
        self.source@
    }
}

impl Pattern {
    /// Relies on regex::Regex::new: whether a pattern compiles depends on
    /// the pattern string alone, and an invalid pattern is rejected with an
    /// error, never a panic.
    #[verifier::external_body]
    pub fn new(source: &str) -> (r: Result<Pattern, SourceError>)
        ensures
            r is Ok <==> regex_compiles(source@),
            r matches Ok(p) ==> p@ == source@,
            r matches Err(e) ==> e == SourceError::InvalidPattern,
    {
        match regex::Regex::new(source) {
            Ok(compiled) => Ok(Pattern { source: source.to_owned(), compiled }),
            Err(_) => Err(SourceError::InvalidPattern),
        }
    }

    /// Relies on regex::Regex::is_match: the result depends on the pattern
    /// and the haystack alone. The matcher was compiled from `self.source`,
    /// so the result is `regex_match` of that pattern text.
    #[verifier::external_body]
    pub fn is_match(&self, text: &str) -> (r: bool)
        ensures
            r == regex_match(self@, text@),
    {
        self.compiled.is_match(text)
    }
}

/// Whether an optional pattern accepts a candidate: no pattern accepts
/// everything, a pattern accepts what it matches.
pub open spec fn pattern_accepts(pattern: Option<Seq<char>>, candidate: Seq<char>) -> bool {
    match pattern {
        None => true,
        Some(p) => regex_match(p, candidate),
    }
}

/// The first-match policy shared by every provider kind: the earliest
/// candidate, in the host-provided order, that the optional pattern accepts.
pub open spec fn first_match(pattern: Option<Seq<char>>, candidates: Seq<Seq<char>>) -> Option<
    Seq<char>,
>
    decreases candidates.len(),
{
    if candidates.len() == 0 {
        None
    } else if pattern_accepts(pattern, candidates[0]) {
        Some(candidates[0])
    } else {
        first_match(pattern, candidates.drop_first())
    }
}

/// Law: if some candidate at position `i` is accepted and none before it is,
/// the resolver selects exactly that candidate — so a pattern matching one
/// element selects it wherever it stands, and a pattern matching several
/// selects the earliest by original order.
pub proof fn lemma_first_match_earliest(
    pattern: Option<Seq<char>>,
    candidates: Seq<Seq<char>>,
    i: int,
)
    requires
        0 <= i < candidates.len(),
        pattern_accepts(pattern, candidates[i]),
        forall|j: int| 0 <= j < i ==> !pattern_accepts(pattern, candidates[j]),
    ensures
        first_match(pattern, candidates) == Some(candidates[i]),
    decreases i,
{
    if i == 0 {
    } else {
        assert(!pattern_accepts(pattern, candidates[0]));
        lemma_first_match_earliest(pattern, candidates.drop_first(), i - 1);
    }
}

/// Law: if no candidate is accepted — in particular if there are no
/// candidates at all — resolution reports no match, never a false positive.
pub proof fn lemma_first_match_none(pattern: Option<Seq<char>>, candidates: Seq<Seq<char>>)
    requires
        forall|j: int| 0 <= j < candidates.len() ==> !pattern_accepts(pattern, candidates[j]),
    ensures
        first_match(pattern, candidates) is None,
    decreases candidates.len(),
{
    if candidates.len() > 0 {
        lemma_first_match_none(pattern, candidates.drop_first());
    }
}

pub open spec fn opt_pattern_view(pattern: Option<&Pattern>) -> Option<Seq<char>> {
    match pattern {
        None => None,
        Some(p) => Some(p@),
    }
}

/// The Link Resolver: select the first candidate the optional pattern
/// accepts, or the first candidate outright when no pattern is given.
pub fn resolve_link(pattern: Option<&Pattern>, candidates: &Vec<String>) -> (r: Option<String>)
    ensures
        ({
            let found = first_match(
                opt_pattern_view(pattern),
                candidates@.map_values(|c: String| c@),
            );
            match r {
                Some(link) => found == Some(link@),
                None => found is None,
            }
        }),
{
    let ghost pv = opt_pattern_view(pattern);
    let ghost cv = candidates@.map_values(|c: String| c@);
    let mut i: usize = 0;
    while i < candidates.len()
        invariant
            i <= candidates.len(),
            pv == opt_pattern_view(pattern),
            cv == candidates@.map_values(|c: String| c@),
            forall|j: int| 0 <= j < i ==> !pattern_accepts(pv, cv[j]),
        decreases candidates.len() - i,
    {
        let accepted = match pattern {
            None => true,
            Some(p) => p.is_match(candidates[i].as_str()),
        };
        if accepted {
            proof {
                lemma_first_match_earliest(pv, cv, i as int);
            }
            return Some(candidates[i].clone());
        }
        i += 1;
    }
    proof {
        lemma_first_match_none(pv, cv);
    }
    None
}

/// Whether `url::Url::parse` accepts the string as an absolute URL; a
/// function of the string alone.
pub uninterp spec fn url_parses(link: Seq<char>) -> bool;

/// The percent-encoded path of the parsed URL, as `url::Url::path` returns
/// it; a function of the URL string alone.
pub uninterp spec fn url_path(link: Seq<char>) -> Seq<char>;

/// Relies on url::Url::parse: whether a string parses as an absolute URL
/// depends on the string alone, and a bad one is rejected with an error,
/// never a panic.
#[verifier::external_body]
pub(crate) fn check_url(text: &str) -> (r: bool)
    ensures
        r == url_parses(text@),
{
    url::Url::parse(text).is_ok()
}

/// Relies on url::Url::parse and url::Url::path: both depend on the URL
/// string alone; `path` returns the percent-encoded path of the parsed URL.
#[verifier::external_body]
fn parse_url_path(link: &str) -> (r: Option<String>)
    ensures
        r is Some <==> url_parses(link@),
        r matches Some(path) ==> path@ == url_path(link@),
{
    match url::Url::parse(link) {
        Ok(parsed) => Some(parsed.path().to_owned()),
        Err(_) => None,
    }
}

/// The suffix of `path` after its last `/` — the final path segment, empty
/// when the path is empty or ends in `/`.
pub open spec fn last_segment(path: Seq<char>) -> Seq<char>
    decreases path.len(),
{
    if path.len() == 0 {
        Seq::empty()
    } else if path.last() == '/' {
        Seq::empty()
    } else {
        last_segment(path.drop_last()).push(path.last())
    }
}

proof fn lemma_last_segment_suffix(path: Seq<char>, i: int)
    requires
        0 <= i <= path.len(),
        forall|j: int| i <= j < path.len() ==> path[j] != '/',
        i > 0 ==> path[i - 1] == '/',
    ensures
        last_segment(path) == path.subrange(i, path.len() as int),
    decreases path.len(),
{
    if i == path.len() {
        assert(path.subrange(i, path.len() as int) =~= Seq::<char>::empty());
    } else {
        lemma_last_segment_suffix(path.drop_last(), i);
        assert(path.drop_last().subrange(i, path.len() - 1).push(path.last()) =~= path.subrange(
            i,
            path.len() as int,
        ));
    }
}

/// What file name a resolved link yields: the last segment of the parsed
/// URL's path, or the error owed when the link does not parse or the
/// segment is empty.
pub open spec fn spec_file_name(link: Seq<char>) -> Result<Seq<char>, SourceError> {
    if !url_parses(link) {
        Err(SourceError::InvalidUrl)
    } else if last_segment(url_path(link)).len() == 0 {
        Err(SourceError::NoFileName)
    } else {
        Ok(last_segment(url_path(link)))
    }
}

/// The view of a per-source outcome: the name on success, the error kept as
/// a value otherwise.
pub open spec fn res_view(r: Result<String, SourceError>) -> Result<Seq<char>, SourceError> {
    match r {
        Ok(s) => Ok(s@),
        Err(e) => Err(e),
    }
}

/// The final non-empty path segment of `path`, or `NoFileName` when the
/// path is empty or ends in `/`.
fn file_name_of_path(path: &str) -> (r: Result<String, SourceError>)
    ensures
        last_segment(path@).len() > 0 ==> (r matches Ok(name) && name@ == last_segment(path@)),
        last_segment(path@).len() == 0 ==> r == Err::<String, SourceError>(SourceError::NoFileName),
{
    let n = path.unicode_len();
    let mut i: usize = n;
    while i > 0 && path.get_char(i - 1) != '/'
        invariant
            0 <= i <= n,
            n == path@.len(),
            forall|j: int| i <= j < n ==> path@[j] != '/',
        decreases i,
    {
        i -= 1;
    }
    proof {
        lemma_last_segment_suffix(path@, i as int);
    }
    let segment = path.substring_char(i, n);
    if segment.unicode_len() == 0 {
        Err(SourceError::NoFileName)
    } else {
        Ok(segment.to_owned())
    }
}

/// Derive the local file name for a resolved link: parse the link and take
/// the final non-empty segment of its path.
pub fn derive_file_name(link: &str) -> (r: Result<String, SourceError>)
    ensures
        res_view(r) == spec_file_name(link@),
{
    match parse_url_path(link) {
        None => Err(SourceError::InvalidUrl),
        Some(path) => file_name_of_path(path.as_str()),
    }
}

pub open spec fn status_success(status: u16) -> bool {
    200 <= status < 300
}

/// Whether an HTTP status code counts as success.
pub fn is_success(status: u16) -> (r: bool)
    ensures
        r == status_success(status),
{
    200 <= status && status < 300
}

/// What one metadata call produced, as the transport hands it over: the
/// call failed outright, or a response arrived with a status and — when the
/// body conformed to the host's release shape — the parsed metadata.
pub enum FetchOutcome<T> {
    Failed,
    Response { status: u16, body: Option<T> },
}

/// The model of the registry: the constructed providers, GitHub-style then
/// GitLab-style, each kind in configuration order.
pub ghost struct SourcesModel {
    pub github: Seq<github::GithubModel>,
    pub gitlab: Seq<gitlab::GitlabModel>,
}

/// The registry of constructed providers, owned for the run's duration.
pub struct Sources {
    github: Vec<Github>,
    gitlab: Vec<Gitlab>,
}

impl View for Sources {
    type V = SourcesModel;

    closed spec fn view(&self) -> SourcesModel {
        SourcesModel {
            github: self.github@.map_values(|g: Github| g@),
            gitlab: self.gitlab@.map_values(|g: Gitlab| g@),
        }
    }
}

/// What building the GitHub-style providers from a descriptor list yields:
/// the providers of the descriptors that construct, order preserved, beside
/// the errors of those that do not — one never blocks the other.
pub open spec fn spec_build_githubs(configs: Seq<GithubConfig>) -> (Seq<github::GithubModel>, Seq<
    SourceError,
>)
    decreases configs.len(),
{
    if configs.len() == 0 {
        (Seq::empty(), Seq::empty())
    } else {
        let prev = spec_build_githubs(configs.drop_last());
        match github::spec_github_new(configs.last()) {
            Ok(m) => (prev.0.push(m), prev.1),
            Err(e) => (prev.0, prev.1.push(e)),
        }
    }
}

/// The GitLab-style half of registry construction, as `spec_build_githubs`.
pub open spec fn spec_build_gitlabs(configs: Seq<GitlabConfig>) -> (Seq<gitlab::GitlabModel>, Seq<
    SourceError,
>)
    decreases configs.len(),
{
    if configs.len() == 0 {
        (Seq::empty(), Seq::empty())
    } else {
        let prev = spec_build_gitlabs(configs.drop_last());
        match gitlab::spec_gitlab_new(configs.last()) {
            Ok(m) => (prev.0.push(m), prev.1),
            Err(e) => (prev.0, prev.1.push(e)),
        }
    }
}

pub open spec fn github_cfgs(config: Config) -> Seq<GithubConfig> {
    match config.github {
        Some(v) => v@,
        None => Seq::empty(),
    }
}

pub open spec fn gitlab_cfgs(config: Config) -> Seq<GitlabConfig> {
    match config.gitlab {
        Some(v) => v@,
        None => Seq::empty(),
    }
}

impl Sources {
    /// Build the registry from the configuration: attempt every descriptor,
    /// keep the providers that construct in configuration order, GitHub-style
    /// before GitLab-style, and collect one error per descriptor that does
    /// not. Construction never fails as a whole and performs no network I/O;
    /// an empty registry beside a non-empty error list is a valid outcome.
    pub fn new(config: Config) -> (r: (Sources, Vec<SourceError>))
        ensures
            r.0@.github == spec_build_githubs(github_cfgs(config)).0,
            r.0@.gitlab == spec_build_gitlabs(gitlab_cfgs(config)).0,
            r.1@ == spec_build_githubs(github_cfgs(config)).1 + spec_build_gitlabs(
                gitlab_cfgs(config),
            ).1,
    {
        let ghost cfg = config;
        let Config { github: github_opt, gitlab: gitlab_opt } = config;
        let github_configs: Vec<GithubConfig> = match github_opt {
            Some(v) => v,
            None => Vec::new(),
        };
        let gitlab_configs: Vec<GitlabConfig> = match gitlab_opt {
            Some(v) => v,
            None => Vec::new(),
        };
        proof {
            assert(github_configs@ =~= github_cfgs(cfg));
            assert(gitlab_configs@ =~= gitlab_cfgs(cfg));
        }
        let mut github: Vec<Github> = Vec::new();
        let mut gitlab: Vec<Gitlab> = Vec::new();
        let mut errors: Vec<SourceError> = Vec::new();
        let mut i: usize = 0;
        while i < github_configs.len()
            invariant
                i <= github_configs.len(),
                github@.map_values(|g: Github| g@) == spec_build_githubs(
                    github_configs@.take(i as int),
                ).0,
                errors@ == spec_build_githubs(github_configs@.take(i as int)).1,
            decreases github_configs.len() - i,
        {
            let ghost prev_github = github@;
            let c = github_configs[i].clone();
            let ghost cx = c;
            match Github::new(c) {
                Ok(g) => {
                    let ghost gx = g;
                    github.push(g);
                    proof {
                        prev_github.lemma_push_map_commute(|g: Github| g@, gx);
                    }
                },
                Err(e) => {
                    errors.push(e);
                },
            }
            i += 1;
            proof {
                assert(github_configs@.take(i as int).drop_last() =~= github_configs@.take(i - 1));
                assert(github::spec_github_new(cx) == github::spec_github_new(
                    github_configs@[i - 1],
                ));
            }
        }
        let ghost github_built = spec_build_githubs(github_configs@);
        proof {
            assert(github_configs@.take(github_configs@.len() as int) =~= github_configs@);
        }
        let mut j: usize = 0;
        while j < gitlab_configs.len()
            invariant
                j <= gitlab_configs.len(),
                github_built == spec_build_githubs(github_configs@),
                github@.map_values(|g: Github| g@) == github_built.0,
                gitlab@.map_values(|g: Gitlab| g@) == spec_build_gitlabs(
                    gitlab_configs@.take(j as int),
                ).0,
                errors@ == github_built.1 + spec_build_gitlabs(gitlab_configs@.take(j as int)).1,
            decreases gitlab_configs.len() - j,
        {
            let ghost prev_gitlab = gitlab@;
            let c = gitlab_configs[j].clone();
            let ghost cx = c;
            match Gitlab::new(c) {
                Ok(g) => {
                    let ghost gx = g;
                    gitlab.push(g);
                    proof {
                        prev_gitlab.lemma_push_map_commute(|g: Gitlab| g@, gx);
                    }
                },
                Err(e) => {
                    errors.push(e);
                },
            }
            j += 1;
            proof {
                assert(gitlab_configs@.take(j as int).drop_last() =~= gitlab_configs@.take(j - 1));
                assert(gitlab::spec_gitlab_new(cx) == gitlab::spec_gitlab_new(
                    gitlab_configs@[j - 1],
                ));
                assert(github_built.1 + spec_build_gitlabs(gitlab_configs@.take(j as int)).1
                    =~= errors@);
            }
        }
        proof {
            assert(gitlab_configs@.take(gitlab_configs@.len() as int) =~= gitlab_configs@);
        }
        (Sources { github, gitlab }, errors)
    }

    /// The constructed GitHub-style providers, in configuration order.
    pub fn github_sources(&self) -> (r: &Vec<Github>)
        ensures
            r@.map_values(|g: Github| g@) == self@.github,
    {
        &self.github
    }

    /// The constructed GitLab-style providers, in configuration order.
    pub fn gitlab_sources(&self) -> (r: &Vec<Gitlab>)
        ensures
            r@.map_values(|g: Gitlab| g@) == self@.gitlab,
    {
        &self.gitlab
    }

    /// Decide the `list` operation over the whole registry: one outcome per
    /// provider, GitHub-style then GitLab-style in registry order, each the
    /// resolved link or the error owed for its own fetch outcome — one
    /// provider's failure never touches another's result.
    pub fn list(
        &self,
        github_fetches: &Vec<FetchOutcome<github::Root>>,
        gitlab_fetches: &Vec<FetchOutcome<gitlab::Root>>,
    ) -> (r: Vec<Result<String, SourceError>>)
        requires
            github_fetches@.len() == self@.github.len(),
            gitlab_fetches@.len() == self@.gitlab.len(),
        ensures
            r@.len() == self@.github.len() + self@.gitlab.len(),
            forall|k: int|
                0 <= k < self@.github.len() ==> res_view(#[trigger] r@[k])
                    == github::spec_github_link(self@.github[k], github_fetches@[k]),
            forall|k: int|
                self@.github.len() <= k < r@.len() ==> res_view(#[trigger] r@[k])
                    == gitlab::spec_gitlab_link(
                    self@.gitlab[k - self@.github.len()],
                    gitlab_fetches@[k - self@.github.len()],
                ),
    {
        let mut results: Vec<Result<String, SourceError>> = Vec::new();
        let mut i: usize = 0;
        while i < self.github.len()
            invariant
                i <= self.github.len(),
                github_fetches@.len() == self@.github.len(),
                results@.len() == i,
                forall|k: int|
                    0 <= k < i ==> res_view(#[trigger] results@[k]) == github::spec_github_link(
                        self@.github[k],
                        github_fetches@[k],
                    ),
            decreases self.github.len() - i,
        {
            let provider = &self.github[i];
            results.push(provider.link(&github_fetches[i]));
            i += 1;
        }
        let mut j: usize = 0;
        while j < self.gitlab.len()
            invariant
                j <= self.gitlab.len(),
                github_fetches@.len() == self@.github.len(),
                gitlab_fetches@.len() == self@.gitlab.len(),
                results@.len() == self@.github.len() + j,
                forall|k: int|
                    0 <= k < self@.github.len() ==> res_view(#[trigger] results@[k])
                        == github::spec_github_link(self@.github[k], github_fetches@[k]),
                forall|k: int|
                    self@.github.len() <= k < results@.len() ==> res_view(#[trigger] results@[k])
                        == gitlab::spec_gitlab_link(
                        self@.gitlab[k - self@.github.len()],
                        gitlab_fetches@[k - self@.github.len()],
                    ),
            decreases self.gitlab.len() - j,
        {
            let provider = &self.gitlab[j];
            results.push(provider.link(&gitlab_fetches[j]));
            j += 1;
        }
        results
    }

    /// Decide the `sync` operation over the whole registry: as `list`, but
    /// each success carries the file name derived from the resolved link.
    /// The caller downloads the successes concurrently and reports the
    /// failures; a failure here never touches a sibling's result.
    pub fn sync(
        &self,
        github_fetches: &Vec<FetchOutcome<github::Root>>,
        gitlab_fetches: &Vec<FetchOutcome<gitlab::Root>>,
    ) -> (r: Vec<Result<String, SourceError>>)
        requires
            github_fetches@.len() == self@.github.len(),
            gitlab_fetches@.len() == self@.gitlab.len(),
        ensures
            r@.len() == self@.github.len() + self@.gitlab.len(),
            forall|k: int|
                0 <= k < self@.github.len() ==> res_view(#[trigger] r@[k])
                    == github::spec_github_sync(self@.github[k], github_fetches@[k]),
            forall|k: int|
                self@.github.len() <= k < r@.len() ==> res_view(#[trigger] r@[k])
                    == gitlab::spec_gitlab_sync(
                    self@.gitlab[k - self@.github.len()],
                    gitlab_fetches@[k - self@.github.len()],
                ),
    {
        let mut results: Vec<Result<String, SourceError>> = Vec::new();
        let mut i: usize = 0;
        while i < self.github.len()
            invariant
                i <= self.github.len(),
                github_fetches@.len() == self@.github.len(),
                results@.len() == i,
                forall|k: int|
                    0 <= k < i ==> res_view(#[trigger] results@[k]) == github::spec_github_sync(
                        self@.github[k],
                        github_fetches@[k],
                    ),
            decreases self.github.len() - i,
        {
            let provider = &self.github[i];
            results.push(provider.sync(&github_fetches[i]));
            i += 1;
        }
        let mut j: usize = 0;
        while j < self.gitlab.len()
            invariant
                j <= self.gitlab.len(),
                github_fetches@.len() == self@.github.len(),
                gitlab_fetches@.len() == self@.gitlab.len(),
                results@.len() == self@.github.len() + j,
                forall|k: int|
                    0 <= k < self@.github.len() ==> res_view(#[trigger] results@[k])
                        == github::spec_github_sync(self@.github[k], github_fetches@[k]),
                forall|k: int|
                    self@.github.len() <= k < results@.len() ==> res_view(#[trigger] results@[k])
                        == gitlab::spec_gitlab_sync(
                        self@.gitlab[k - self@.github.len()],
                        gitlab_fetches@[k - self@.github.len()],
                    ),
            decreases self.gitlab.len() - j,
        {
            let provider = &self.gitlab[j];
            results.push(provider.sync(&gitlab_fetches[j]));
            j += 1;
        }
        results
    }
}

} // verus!
