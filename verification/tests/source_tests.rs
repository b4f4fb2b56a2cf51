use latest::config::Config;
use latest::source::derive_file_name;
use latest::source::is_success;
use latest::source::resolve_link;
use latest::source::Asset;
use latest::source::Assets;
use latest::source::FetchOutcome;
use latest::source::Github;
use latest::source::GithubConfig;
use latest::source::Gitlab;
use latest::source::GitlabConfig;
use latest::source::Link;
use latest::source::Pattern;
use latest::source::Root;
use latest::source::Root2;
use latest::source::SourceError;
use latest::source::Sources;

fn pattern(source: &str) -> Pattern {
    Pattern::new(source).expect("pattern should compile")
}

fn candidates(urls: &[&str]) -> Vec<String> {
    urls.iter().map(|u| u.to_string()).collect()
}

fn github_root(urls: &[&str]) -> Root {
    Root {
        assets: urls
            .iter()
            .map(|u| Asset { browser_download_url: u.to_string() })
            .collect(),
    }
}

fn gitlab_release(urls: &[&str]) -> Root2 {
    Root2 {
        assets: Assets {
            links: urls
                .iter()
                .enumerate()
                .map(|(i, u)| Link {
                    id: i as i64,
                    name: format!("asset-{}", i),
                    url: u.to_string(),
                    direct_asset_url: u.to_string(),
                    link_type: "package".to_string(),
                })
                .collect(),
        },
    }
}

fn ok_fetch<T>(body: T) -> FetchOutcome<T> {
    FetchOutcome::Response { status: 200, body: Some(body) }
}

#[test]
fn resolver_selects_single_match_anywhere() {
    let p = pattern("\\.tar\\.gz$");
    for position in 0..3 {
        let mut urls = vec!["https://x/a.zip", "https://x/b.txt", "https://x/c.deb"];
        urls[position] = "https://x/only.tar.gz";
        let found = resolve_link(Some(&p), &candidates(&urls));
        assert_eq!(found, Some("https://x/only.tar.gz".to_string()));
    }
}

#[test]
fn resolver_selects_earliest_of_several_matches() {
    let p = pattern("\\.tar\\.gz$");
    let urls = candidates(&[
        "https://x/a.zip",
        "https://x/first.tar.gz",
        "https://x/second.tar.gz",
    ]);
    assert_eq!(
        resolve_link(Some(&p), &urls),
        Some("https://x/first.tar.gz".to_string())
    );
}

#[test]
fn resolver_without_pattern_takes_first_candidate() {
    let urls = candidates(&["https://x/a.zip", "https://x/b.tar.gz"]);
    assert_eq!(resolve_link(None, &urls), Some("https://x/a.zip".to_string()));
}

#[test]
fn resolver_reports_no_match_on_empty_candidates() {
    let p = pattern(".*");
    assert_eq!(resolve_link(Some(&p), &Vec::new()), None);
    assert_eq!(resolve_link(None, &Vec::new()), None);
}

#[test]
fn resolver_reports_no_match_when_nothing_matches() {
    let p = pattern("\\.tar\\.gz$");
    let urls = candidates(&["https://x/a.zip", "https://x/b.txt"]);
    assert_eq!(resolve_link(Some(&p), &urls), None);
}

#[test]
fn github_empty_assets_resolves_to_no_match() {
    let g = Github::new(GithubConfig {
        repo: "o/r".to_string(),
        reg: ".*".to_string(),
    })
    .expect("valid descriptor");
    let outcome = g.link(&ok_fetch(github_root(&[])));
    assert_eq!(outcome, Err(SourceError::NoMatch));
}

#[test]
fn gitlab_zero_releases_resolves_to_no_releases() {
    let g = Gitlab::new(GitlabConfig {
        host: "gitlab.com".to_string(),
        id: "1".to_string(),
        reg: None,
    })
    .expect("valid descriptor");
    let outcome = g.link(&ok_fetch(Vec::new()));
    assert_eq!(outcome, Err(SourceError::NoReleases));
}

#[test]
fn gitlab_release_without_links_resolves_to_no_match() {
    let g = Gitlab::new(GitlabConfig {
        host: "gitlab.com".to_string(),
        id: "1".to_string(),
        reg: None,
    })
    .expect("valid descriptor");
    let outcome = g.link(&ok_fetch(vec![gitlab_release(&[])]));
    assert_eq!(outcome, Err(SourceError::NoMatch));
}

#[test]
fn gitlab_without_pattern_takes_first_link_of_first_release() {
    let g = Gitlab::new(GitlabConfig {
        host: "gitlab.com".to_string(),
        id: "1".to_string(),
        reg: None,
    })
    .expect("valid descriptor");
    let releases = vec![
        gitlab_release(&["https://x/one.zip", "https://x/two.zip"]),
        gitlab_release(&["https://x/old.zip"]),
    ];
    assert_eq!(
        g.link(&ok_fetch(releases)),
        Ok("https://x/one.zip".to_string())
    );
}

#[test]
fn registry_partitions_failures_from_providers() {
    let config = Config {
        github: Some(vec![GithubConfig {
            repo: "o/r".to_string(),
            reg: "(".to_string(),
        }]),
        gitlab: Some(vec![GitlabConfig {
            host: "gitlab.com".to_string(),
            id: "3472737".to_string(),
            reg: None,
        }]),
    };
    let (sources, errors) = Sources::new(config);
    assert_eq!(errors, vec![SourceError::InvalidPattern]);
    assert_eq!(sources.github_sources().len(), 0);
    assert_eq!(sources.gitlab_sources().len(), 1);
    assert_eq!(
        sources.gitlab_sources()[0].api(),
        "https://gitlab.com/api/v4/projects/3472737/releases"
    );
}

#[test]
fn registry_keeps_configuration_order() {
    let config = Config {
        github: Some(vec![
            GithubConfig { repo: "a/one".to_string(), reg: ".*".to_string() },
            GithubConfig { repo: "b/two".to_string(), reg: ".*".to_string() },
        ]),
        gitlab: None,
    };
    let (sources, errors) = Sources::new(config);
    assert!(errors.is_empty());
    let apis: Vec<&str> = sources.github_sources().iter().map(|g| g.api()).collect();
    assert_eq!(
        apis,
        vec![
            "https://api.github.com/repos/a/one/releases/latest",
            "https://api.github.com/repos/b/two/releases/latest",
        ]
    );
}

#[test]
fn registry_rejects_invalid_endpoint() {
    let config = Config {
        github: None,
        gitlab: Some(vec![GitlabConfig {
            host: "bad host".to_string(),
            id: "1".to_string(),
            reg: None,
        }]),
    };
    let (sources, errors) = Sources::new(config);
    assert_eq!(errors, vec![SourceError::InvalidUrl]);
    assert_eq!(sources.gitlab_sources().len(), 0);
}

#[test]
fn file_name_is_last_path_segment() {
    assert_eq!(
        derive_file_name("https://host/path/to/artifact-1.2.3.tar.gz"),
        Ok("artifact-1.2.3.tar.gz".to_string())
    );
}

#[test]
fn file_name_ignores_query_and_fragment() {
    assert_eq!(
        derive_file_name("https://host/a/b.bin?x=1#frag"),
        Ok("b.bin".to_string())
    );
}

#[test]
fn trailing_slash_has_no_file_name() {
    assert_eq!(
        derive_file_name("https://host/path/to/"),
        Err(SourceError::NoFileName)
    );
    assert_eq!(derive_file_name("https://host/"), Err(SourceError::NoFileName));
}

#[test]
fn unparseable_link_is_invalid_url() {
    assert_eq!(
        derive_file_name("not a url"),
        Err(SourceError::InvalidUrl)
    );
}

#[test]
fn end_to_end_list_and_sync_resolve_the_matching_asset() {
    let config = Config {
        github: Some(vec![GithubConfig {
            repo: "o/r".to_string(),
            reg: "\\.tar\\.gz$".to_string(),
        }]),
        gitlab: None,
    };
    let (sources, errors) = Sources::new(config);
    assert!(errors.is_empty());
    assert_eq!(
        sources.github_sources()[0].api(),
        "https://api.github.com/repos/o/r/releases/latest"
    );
    let root = github_root(&["https://x/y/a.zip", "https://x/y/b.tar.gz"]);
    let listed = sources.list(&vec![ok_fetch(root.clone())], &Vec::new());
    assert_eq!(listed, vec![Ok("https://x/y/b.tar.gz".to_string())]);
    let synced = sources.sync(&vec![ok_fetch(root)], &Vec::new());
    assert_eq!(synced, vec![Ok("b.tar.gz".to_string())]);
}

#[test]
fn sync_isolates_one_failure_from_the_sibling() {
    let config = Config {
        github: Some(vec![
            GithubConfig { repo: "o/broken".to_string(), reg: ".*".to_string() },
            GithubConfig { repo: "o/fine".to_string(), reg: "\\.tar\\.gz$".to_string() },
        ]),
        gitlab: None,
    };
    let (sources, errors) = Sources::new(config);
    assert!(errors.is_empty());
    let fetches = vec![
        FetchOutcome::Response { status: 404, body: None },
        ok_fetch(github_root(&["https://x/y/b.tar.gz"])),
    ];
    let results = sources.sync(&fetches, &Vec::new());
    assert_eq!(
        results,
        vec![Err(SourceError::Fetch), Ok("b.tar.gz".to_string())]
    );
    let failures = results.iter().filter(|r| r.is_err()).count();
    let successes = results.iter().filter(|r| r.is_ok()).count();
    assert_eq!((failures, successes), (1, 1));
}

#[test]
fn metadata_errors_are_told_apart() {
    let g = Github::new(GithubConfig {
        repo: "o/r".to_string(),
        reg: ".*".to_string(),
    })
    .expect("valid descriptor");
    assert_eq!(g.link(&FetchOutcome::Failed), Err(SourceError::Fetch));
    assert_eq!(
        g.link(&FetchOutcome::Response { status: 500, body: None }),
        Err(SourceError::Fetch)
    );
    assert_eq!(
        g.link(&FetchOutcome::Response { status: 200, body: None }),
        Err(SourceError::Parse)
    );
}

#[test]
fn status_success_is_the_two_hundred_range() {
    assert!(!is_success(199));
    assert!(is_success(200));
    assert!(is_success(299));
    assert!(!is_success(300));
    assert!(!is_success(404));
}

#[test]
fn github_metadata_request_carries_a_user_agent() {
    let g = Github::new(GithubConfig {
        repo: "o/r".to_string(),
        reg: ".*".to_string(),
    })
    .expect("valid descriptor");
    assert!(!g.user_agent().is_empty());
}

#[test]
fn error_messages_name_each_failure() {
    assert_eq!(SourceError::InvalidUrl.message(), "invalid url");
    assert_eq!(SourceError::InvalidPattern.message(), "invalid pattern");
    assert_eq!(SourceError::Fetch.message(), "failed to get metadata");
    assert_eq!(SourceError::Parse.message(), "unexpected metadata shape");
    assert_eq!(SourceError::NoReleases.message(), "no releases");
    assert_eq!(SourceError::NoMatch.message(), "no assets found");
    assert_eq!(SourceError::NoFileName.message(), "no last path segment found");
}
