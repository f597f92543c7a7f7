//! The configuration data model and the batch-level plumbing: per-run
//! validation of every service descriptor, and the name-sorted
//! collection of per-service results.

use vstd::prelude::*;
use crate::errors::AppError;
use crate::git::GitConfig;
use crate::git::TokenAvailability;
use crate::registry::ImageConfig;
use crate::service::ServiceInfo;
use crate::strutil::lemma_lex_total;
use crate::strutil::spec_lex_le;
use crate::strutil::str_le;

verus! {

/// The output format of a run.
#[derive(Copy, Clone, Debug, PartialEq, Eq, Structural)]
pub enum OutputFormat {
    Json,
    Yaml,
}

/// The command-line arguments, as plain values.
#[derive(Debug)]
pub struct Args {
    pub format: OutputFormat,
    pub config: String,
    pub output: String,
}

/// One serialized output record: an image, its resolved tag, and an
/// optional error message.
#[derive(Debug)]
pub struct ServiceVersion {
    pub image: String,
    pub tag: String,
    pub error: Option<String>,
}

impl ServiceVersion {
    /// An error-shaped record: the sentinel tag and a message.
    pub fn error(image: String, error: &str) -> (r: Self)
        ensures
            r.image == image,
            r.tag@ == "<ERROR>"@,
            r.error matches Some(e) && e@ == error@,
    {
        ServiceVersion { image, tag: "<ERROR>".to_owned(), error: Some(error.to_owned()) }
    }
}

/// The process-wide GitHub switch: authenticate every GitHub request
/// with `GITHUB_TOKEN` to lift the anonymous rate limit.
#[derive(Debug)]
pub struct GlobalGithubConfig {
    pub authenticate: bool,
}

/// The provider-related part of the global configuration.
#[derive(Debug)]
pub struct GlobalGitConfig {
    pub github: GlobalGithubConfig,
}

/// The global section of the configuration file.
#[derive(Debug)]
pub struct GlobalConfig {
    pub git: GlobalGitConfig,
}

/// One service: where its releases live and which image tag to check.
#[derive(Debug)]
pub struct ServiceConfig {
    pub git: GitConfig,
    pub image: ImageConfig,
}

/// The parsed configuration file: global switches and the services by
/// name.
#[derive(Debug)]
pub struct Config {
    pub global: GlobalConfig,
    pub services: Vec<(String, ServiceConfig)>,
}

/// A loaded and validated run configuration.
#[derive(Debug)]
pub struct AppConfig {
    pub args: Args,
    pub services: Vec<(String, ServiceConfig)>,
}

/// A descriptor with the process-wide GitHub switch applied.
pub open spec fn spec_adjusted(git: GitConfig, global_auth: bool) -> GitConfig {
    GitConfig { global_github_auth: global_auth, ..git }
}

/// Applies the global GitHub switch to every service and validates each
/// descriptor; the first invalid descriptor aborts the run with its
/// error, so that an invalid service never reaches version resolution.
pub fn validate_services(
    services: Vec<(String, ServiceConfig)>,
    global_auth: bool,
    tokens: &TokenAvailability,
) -> (r: Result<Vec<(String, ServiceConfig)>, AppError>)
    ensures
        r matches Ok(v) ==> v@.len() == services@.len() && forall|i: int|
            0 <= i < v@.len() ==> v@[i].0 == services@[i].0 && v@[i].1.git == spec_adjusted(
                services@[i].1.git,
                global_auth,
            ) && v@[i].1.image == services@[i].1.image && v@[i].1.git.spec_validate_ok(tokens),
        r matches Err(e) ==> exists|i: int|
            0 <= i < services@.len() && !spec_adjusted(
                services@[i].1.git,
                global_auth,
            ).spec_validate_ok(tokens) && e == spec_adjusted(
                services@[i].1.git,
                global_auth,
            ).spec_validate_error(tokens) && forall|j: int|
                0 <= j < i ==> spec_adjusted(services@[j].1.git, global_auth).spec_validate_ok(
                    tokens,
                ),
{
    let ghost orig = services@;
    let mut rest = services;
    let mut out: Vec<(String, ServiceConfig)> = Vec::new();
    while rest.len() > 0
        invariant
            orig == services@,
            out@.len() + rest@.len() == orig.len(),
            rest@ == orig.subrange(out@.len() as int, orig.len() as int),
            forall|i: int|
                0 <= i < out@.len() ==> out@[i].0 == orig[i].0 && out@[i].1.git == spec_adjusted(
                    orig[i].1.git,
                    global_auth,
                ) && out@[i].1.image == orig[i].1.image && out@[i].1.git.spec_validate_ok(tokens),
        decreases rest@.len(),
    {
        let ghost k = out@.len() as int;
        let (name, sc) = rest.remove(0);
        proof {
            assert(rest@ =~= orig.subrange(k + 1, orig.len() as int));
            assert((name, sc) == orig[k]);
        }
        let git2 = sc.git.with_global_github_auth(global_auth);
        proof {
            assert(git2 == spec_adjusted(orig[k].1.git, global_auth));
        }
        match git2.validate(tokens) {
            Ok(()) => {
                out.push((name, ServiceConfig { git: git2, image: sc.image }));
            },
            Err(e) => {
                proof {
                    assert(0 <= k < services@.len() && !spec_adjusted(
                        services@[k].1.git,
                        global_auth,
                    ).spec_validate_ok(tokens) && e == spec_adjusted(
                        services@[k].1.git,
                        global_auth,
                    ).spec_validate_error(tokens));
                }
                return Err(e);
            },
        }
    }
    Ok(out)
}

/// The names of a result list are sorted.
pub open spec fn spec_sorted_by_name(s: Seq<(String, ServiceInfo)>) -> bool {
    forall|i: int|
        #![trigger s[i], s[i + 1]]
        0 <= i && i + 1 < s.len() ==> spec_lex_le(s[i].0@, s[i + 1].0@)
}

/// Inserting anywhere adds exactly one occurrence to a sequence's
/// multiset of elements.
proof fn lemma_insert_to_multiset<A>(s: Seq<A>, j: int, x: A)
    requires
        0 <= j <= s.len(),
    ensures
        s.insert(j, x).to_multiset() =~= s.to_multiset().insert(x),
{
    broadcast use vstd::seq_lib::group_to_multiset_ensures;

    let s2 = s.insert(j, x);
    assert(s2.remove(j) =~= s);
    assert(s2.remove(j).to_multiset() =~= s2.to_multiset().remove(s2[j]));
    assert(s2[j] == x);
    assert(s2.contains(x));
    assert(s2.to_multiset().count(x) > 0);
    assert forall|a: A| s2.to_multiset().count(a) == s.to_multiset().insert(x).count(a) by {
        if a == x {
            assert(s.to_multiset().count(x) == s2.to_multiset().count(x) - 1);
        } else {
            assert(s.to_multiset().count(a) == s2.to_multiset().count(a));
        }
    }
}

/// Gathers per-service results into a list sorted by service name; the
/// entries themselves are exactly those handed in — no result is lost
/// or invented, whatever mixture of successes and failures came back.
pub fn collect_results(results: Vec<(String, ServiceInfo)>) -> (r: Vec<(String, ServiceInfo)>)
    ensures
        r@.len() == results@.len(),
        spec_sorted_by_name(r@),
        r@.to_multiset() == results@.to_multiset(),
{
    broadcast use vstd::seq_lib::group_to_multiset_ensures;

    let ghost orig = results@;
    let mut rest = results;
    let mut out: Vec<(String, ServiceInfo)> = Vec::new();
    proof {
        assert forall|a: (String, ServiceInfo)|
            out@.to_multiset().add(rest@.to_multiset()).count(a) == orig.to_multiset().count(
                a,
            ) by {
            assert(out@.to_multiset().count(a) == 0);
        }
        assert(out@.to_multiset().add(rest@.to_multiset()) =~= orig.to_multiset());
    }
    while rest.len() > 0
        invariant
            out@.len() + rest@.len() == orig.len(),
            spec_sorted_by_name(out@),
            out@.to_multiset().add(rest@.to_multiset()) =~= orig.to_multiset(),
        decreases rest@.len(),
    {
        let ghost old_out = out@;
        let ghost old_rest = rest@;
        let (name, info) = rest.remove(0);
        proof {
            old_rest.to_multiset_ensures();
            assert(old_rest.remove(0).to_multiset() =~= old_rest.to_multiset().remove(
                old_rest[0],
            ));
            assert(old_rest.contains(old_rest[0]));
            assert(old_rest.to_multiset().count(old_rest[0]) > 0);
        }
        let mut j: usize = 0;
        while j < out.len() && str_le(out[j].0.as_str(), name.as_str())
            invariant
                j <= out@.len(),
                out@ == old_out,
                forall|t: int| 0 <= t < j ==> spec_lex_le(out@[t].0@, name@),
            decreases out@.len() - j,
        {
            j = j + 1;
        }
        proof {
            if (j as int) < out@.len() {
                lemma_lex_total(out@[j as int].0@, name@);
            }
            lemma_insert_to_multiset(out@, j as int, (name, info));
            old_out.insert_ensures(j as int, (name, info));
        }
        out.insert(j, (name, info));
        proof {
            assert forall|i: int|
                #![trigger out@[i], out@[i + 1]]
                0 <= i && i + 1 < out@.len() implies spec_lex_le(out@[i].0@, out@[i + 1].0@) by {
                if i + 1 < j {
                    assert(out@[i] == old_out[i]);
                    assert(out@[i + 1] == old_out[i + 1]);
                } else if i + 1 == j {
                    assert(out@[i] == old_out[i]);
                } else if i == j {
                    assert(out@[i + 1] == old_out[i]);
                } else {
                    assert(out@[i] == old_out[i - 1]);
                    assert(out@[i + 1] == old_out[i]);
                }
            }
            assert forall|a: (String, ServiceInfo)|
                out@.to_multiset().add(rest@.to_multiset()).count(a) == orig.to_multiset().count(
                    a,
                ) by {
                assert(old_out.to_multiset().add(old_rest.to_multiset()).count(a)
                    == orig.to_multiset().count(a));
            }
            assert(out@.to_multiset().add(rest@.to_multiset()) =~= orig.to_multiset());
        }
    }
    proof {
        assert forall|a: (String, ServiceInfo)|
            out@.to_multiset().count(a) == orig.to_multiset().count(a) by {
            assert(rest@.to_multiset().count(a) == 0);
        }
        assert(out@.to_multiset() =~= orig.to_multiset());
    }
    out
}

} // verus!
