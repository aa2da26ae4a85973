//! The per-repository health score: boundaries, the documented example,
//! clamping and monotonicity, and the two pure mapping steps of the save
//! paths.

use repo_health::repos::build_active_model;
use repo_health::repos::ActiveModel;
use repo_health::repos::GithubRepo;
use repo_health::repos::Model;
use repo_health::repos::Params;
use repo_health::score::Score;

fn repo_with_metrics(commits: u32, contributors: u32, stars: u32, prs: u32, issues: u32) -> Model {
    Model {
        id: 1,
        project_id: 1,
        name: "octocrab".to_string(),
        owner: "XAMPPRocky".to_string(),
        stars,
        forks: 0,
        issues,
        prs,
        contributors,
        commits_last_30d: commits,
        watchers: 0,
        license: None,
        last_fetch: 0,
        created_at: 0,
        updated_at: 0,
    }
}

fn value_of(s: &Score) -> f64 {
    s.num as f64 / s.den as f64
}

#[test]
fn full_boundary_scores_one_hundred() {
    let h = repo_with_metrics(30, 10, 100, 10, 0).health();
    assert_eq!(h, Score { num: 6000, den: 60 });
    assert_eq!(value_of(&h), 100.0);
}

#[test]
fn zero_metrics_score_zero() {
    let h = repo_with_metrics(0, 0, 0, 0, 0).health();
    assert_eq!(h, Score { num: 0, den: 60 });
    assert_eq!(value_of(&h), 0.0);
}

#[test]
fn documented_midrange_example() {
    // activity 0.5, community 0.5, adoption 0.5, maintenance 0.25:
    // 0.5*0.35 + 0.5*0.25 + 0.5*0.15 + 0.25*0.25 = 0.4375, so 43.75 points.
    let h = repo_with_metrics(15, 5, 50, 5, 25).health();
    assert_eq!(h, Score { num: 2625, den: 60 });
    assert_eq!(value_of(&h), 43.75);
}

#[test]
fn factors_cap_at_one() {
    let h = repo_with_metrics(3000, 1000, 100000, 1000, 0).health();
    assert_eq!(h, Score { num: 6000, den: 60 });
    let extreme = repo_with_metrics(u32::MAX, u32::MAX, u32::MAX, u32::MAX, 0).health();
    assert_eq!(extreme, Score { num: 6000, den: 60 });
    let all_extreme = repo_with_metrics(u32::MAX, u32::MAX, u32::MAX, u32::MAX, u32::MAX).health();
    // With the issue backlog saturated the maintenance factor vanishes.
    assert_eq!(all_extreme, Score { num: 4500, den: 60 });
}

#[test]
fn maintenance_vanishes_at_fifty_issues() {
    assert_eq!(repo_with_metrics(0, 0, 0, 10, 50).health().num, 0);
    assert_eq!(repo_with_metrics(0, 0, 0, 10, 90).health().num, 0);
}

#[test]
fn surplus_prs_offset_issue_backlog() {
    // The pull-request factor is not clamped before the product: twenty
    // open pull requests against twenty-five issues still reach the full
    // maintenance factor of one (25 points of the score).
    let h = repo_with_metrics(0, 0, 0, 20, 25).health();
    assert_eq!(h, Score { num: 1500, den: 60 });
    assert_eq!(value_of(&h), 25.0);
}

#[test]
fn health_monotone_in_favourable_metrics() {
    let mut prev: u128 = 0;
    let mut c: u32 = 0;
    while c <= 35 {
        let n = repo_with_metrics(c, 3, 40, 2, 10).health().num;
        assert!(n >= prev);
        prev = n;
        c += 1;
    }
    prev = 0;
    let mut k: u32 = 0;
    while k <= 12 {
        let n = repo_with_metrics(9, k, 40, 2, 10).health().num;
        assert!(n >= prev);
        prev = n;
        k += 1;
    }
    prev = 0;
    let mut s: u32 = 0;
    while s <= 120 {
        let n = repo_with_metrics(9, 3, s, 2, 10).health().num;
        assert!(n >= prev);
        prev = n;
        s += 1;
    }
    prev = 0;
    let mut p: u32 = 0;
    while p <= 15 {
        let n = repo_with_metrics(9, 3, 40, p, 10).health().num;
        assert!(n >= prev);
        prev = n;
        p += 1;
    }
}

#[test]
fn health_non_increasing_in_issues() {
    let mut prev: u128 = u128::MAX;
    let mut i: u32 = 0;
    while i <= 60 {
        let n = repo_with_metrics(9, 3, 40, 6, i).health().num;
        assert!(n <= prev);
        prev = n;
        i += 1;
    }
}

#[test]
fn fetched_repo_defaults_missing_fields() {
    let gh = GithubRepo {
        name: "octocrab".to_string(),
        owner_login: None,
        stargazers_count: None,
        forks_count: None,
        open_issues_count: None,
        watchers_count: None,
        license_name: None,
    };
    let item = build_active_model(gh, 4, 7, 12, 99);
    assert_eq!(item.project_id, None);
    assert_eq!(item.name, "octocrab");
    assert_eq!(item.owner, "");
    assert_eq!(item.stars, 0);
    assert_eq!(item.forks, 0);
    assert_eq!(item.issues, 0);
    assert_eq!(item.watchers, 0);
    assert_eq!(item.prs, 4);
    assert_eq!(item.contributors, 7);
    assert_eq!(item.commits_last_30d, 12);
    assert_eq!(item.license, None);
    assert_eq!(item.last_fetch, 99);
    assert_eq!(item.updated_at, None);
}

#[test]
fn fetched_repo_maps_present_fields() {
    let gh = GithubRepo {
        name: "octocrab".to_string(),
        owner_login: Some("XAMPPRocky".to_string()),
        stargazers_count: Some(510),
        forks_count: Some(44),
        open_issues_count: Some(9),
        watchers_count: Some(510),
        license_name: Some("MIT License".to_string()),
    };
    let item = build_active_model(gh, 6, 30, 21, 1234);
    assert_eq!(item.owner, "XAMPPRocky");
    assert_eq!(item.stars, 510);
    assert_eq!(item.forks, 44);
    assert_eq!(item.issues, 9);
    assert_eq!(item.watchers, 510);
    assert_eq!(item.license, Some("MIT License".to_string()));
}

#[test]
fn params_update_overwrites_form_fields() {
    let params = Params {
        project_id: 3,
        name: "tokio".to_string(),
        owner: "tokio-rs".to_string(),
        stars: 80,
        forks: 11,
        issues: 5,
        prs: 2,
        contributors: 9,
        commits_last_30d: 14,
        watchers: 70,
        license: Some("MIT".to_string()),
        last_fetch: 400,
    };
    let mut item = ActiveModel {
        project_id: None,
        name: String::new(),
        owner: String::new(),
        stars: 0,
        forks: 0,
        issues: 0,
        prs: 0,
        contributors: 0,
        commits_last_30d: 0,
        watchers: 0,
        license: None,
        last_fetch: 0,
        updated_at: Some(5),
    };
    params.update(&mut item);
    assert_eq!(item.project_id, Some(3));
    assert_eq!(item.name, "tokio");
    assert_eq!(item.owner, "tokio-rs");
    assert_eq!(item.stars, 80);
    assert_eq!(item.forks, 11);
    assert_eq!(item.issues, 5);
    assert_eq!(item.prs, 2);
    assert_eq!(item.contributors, 9);
    assert_eq!(item.commits_last_30d, 14);
    assert_eq!(item.watchers, 70);
    assert_eq!(item.license, Some("MIT".to_string()));
    assert_eq!(item.last_fetch, 400);
    // The form never touches the explicit save time.
    assert_eq!(item.updated_at, Some(5));
}
