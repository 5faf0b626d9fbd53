//! Path resolution for the backend's working directory and interpreter.
//!
//! Packaged application layouts differ between bundlers and operating
//! systems, so resolution walks an ordered list of candidate paths and takes
//! the first that exists on disk, falling back to a fixed default guess when
//! none does. Which paths are tried, and in which order, is verified; only
//! the single question "does this path exist?" is asked of the file system,
//! so a resolved path is always one of the declared candidates.

use vstd::prelude::*;
use vstd::string::*;

use crate::launch::{BuildMode, Platform};

verus! {

/// The views of a vector of strings.
pub open spec fn views_of(v: Seq<String>) -> Seq<Seq<char>> {
    v.map_values(|s: String| s@)
}

/// `s` without its leading slashes.
pub open spec fn drop_leading_slashes(s: Seq<char>) -> Seq<char>
    decreases s.len(),
{
    if s.len() > 0 && s[0] == '/' {
        drop_leading_slashes(s.drop_first())
    } else {
        s
    }
}

/// `s` without its trailing slashes.
pub open spec fn drop_trailing_slashes(s: Seq<char>) -> Seq<char>
    decreases s.len(),
{
    if s.len() > 0 && s[s.len() - 1] == '/' {
        drop_trailing_slashes(s.drop_last())
    } else {
        s
    }
}

/// A resource name as it is looked up: stripped of leading and trailing
/// slashes.
pub open spec fn clean_resource_name(s: Seq<char>) -> Seq<char> {
    drop_trailing_slashes(drop_leading_slashes(s))
}

proof fn lemma_drop_leading(s: Seq<char>, k: int)
    requires
        0 <= k <= s.len(),
        forall|j: int| 0 <= j < k ==> s[j] == '/',
        k < s.len() ==> s[k] != '/',
    ensures
        drop_leading_slashes(s) == s.subrange(k, s.len() as int),
    decreases k,
{
    if k == 0 {
        assert(s.subrange(0, s.len() as int) =~= s);
    } else {
        lemma_drop_leading(s.drop_first(), k - 1);
        assert(s.drop_first().subrange(k - 1, s.drop_first().len() as int) =~= s.subrange(
            k,
            s.len() as int,
        ));
    }
}

proof fn lemma_drop_trailing(s: Seq<char>, k: int)
    requires
        0 <= k <= s.len(),
        forall|j: int| k <= j < s.len() ==> s[j] == '/',
        k > 0 ==> s[k - 1] != '/',
    ensures
        drop_trailing_slashes(s) == s.subrange(0, k),
    decreases s.len(),
{
    if k == s.len() {
        assert(s.subrange(0, s.len() as int) =~= s);
    } else {
        assert(s.len() > 0 && s[s.len() - 1] == '/');
        lemma_drop_trailing(s.drop_last(), k);
    }
}

/// Strips leading and trailing slashes from a name.
pub fn trim_slashes(s: &str) -> (r: &str)
    ensures
        r@ == clean_resource_name(s@),
{
    let n = s.unicode_len();
    let mut start: usize = 0;
    while start < n && s.get_char(start) == '/'
        invariant
            n == s@.len(),
            start <= n,
            forall|j: int| 0 <= j < start ==> s@[j] == '/',
        decreases n - start,
    {
        start = start + 1;
    }
    let mut end: usize = n;
    while end > start && s.get_char(end - 1) == '/'
        invariant
            n == s@.len(),
            start <= end <= n,
            forall|j: int| end <= j < n ==> s@[j] == '/',
        decreases end,
    {
        end = end - 1;
    }
    let r = s.substring_char(start, end);
    proof {
        lemma_drop_leading(s@, start as int);
        let t = s@.subrange(start as int, s@.len() as int);
        assert forall|j: int| end - start <= j < t.len() implies t[j] == '/' by {
            assert(t[j] == s@[start + j]);
        }
        if end > start {
            assert(t[end - start - 1] == s@[end - 1]);
        }
        lemma_drop_trailing(t, end - start);
        assert(t.subrange(0, end - start) =~= s@.subrange(start as int, end as int));
    }
    r
}

/// Joins a directory and a name with a single separator.
pub fn join_path(dir: &str, name: &str) -> (r: String)
    ensures
        r@ == dir@ + "/"@ + name@,
{
    let mut s = String::from_str(dir);
    s.append("/");
    s.append(name);
    s
}

/// The ordered resource roots searched in a packaged build: the bundled
/// resource directory if the platform reports one, then `resources` beside
/// the executable, then the executable's own directory.
pub open spec fn spec_candidate_roots(
    resource_dir: Option<Seq<char>>,
    exe_dir: Option<Seq<char>>,
) -> Seq<Seq<char>> {
    let from_bundle = match resource_dir {
        Some(rd) => seq![rd],
        None => Seq::<Seq<char>>::empty(),
    };
    let beside_exe = match exe_dir {
        Some(ed) => seq![ed + "/resources"@, ed],
        None => Seq::<Seq<char>>::empty(),
    };
    from_bundle + beside_exe
}

/// Builds the candidate resource roots from the bundled resource directory
/// and the executable's directory, either of which the caller may have
/// failed to learn.
pub fn candidate_resource_roots(resource_dir: &Option<String>, exe_dir: &Option<String>) -> (roots:
    Vec<String>)
    ensures
        views_of(roots@) == spec_candidate_roots(
            match resource_dir {
                Some(rd) => Some(rd@),
                None => None,
            },
            match exe_dir {
                Some(ed) => Some(ed@),
                None => None,
            },
        ),
{
    let mut roots: Vec<String> = Vec::new();
    match resource_dir {
        Some(rd) => roots.push(rd.clone()),
        None => (),
    }
    match exe_dir {
        Some(ed) => {
            let mut beside = String::from_str(ed.as_str());
            beside.append("/resources");
            roots.push(beside);
            roots.push(ed.clone());
        }
        None => (),
    }
    proof {
        assert(views_of(roots@) =~= spec_candidate_roots(
            match resource_dir {
                Some(rd) => Some(rd@),
                None => None,
            },
            match exe_dir {
                Some(ed) => Some(ed@),
                None => None,
            },
        ));
    }
    roots
}

/// For each root, in order: first `<root>/<name>`, then
/// `<root>/resources/<name>` (some bundlers nest user resources one level
/// deeper).
pub open spec fn resource_candidates(roots: Seq<Seq<char>>, name: Seq<char>) -> Seq<Seq<char>> {
    Seq::new(
        2 * roots.len(),
        |i: int|
            if i % 2 == 0 {
                roots[i / 2] + "/"@ + name
            } else {
                roots[i / 2] + "/resources/"@ + name
            },
    )
}

/// Builds the full ordered candidate list for a resource name over the
/// given roots.
pub fn resource_candidate_paths(roots: &Vec<String>, name: &str) -> (v: Vec<String>)
    ensures
        views_of(v@) == resource_candidates(views_of(roots@), name@),
{
    let mut v: Vec<String> = Vec::new();
    let mut i: usize = 0;
    while i < roots.len()
        invariant
            i <= roots@.len(),
            v@.len() == 2 * i,
            forall|k: int|
                0 <= k < v@.len() ==> v@[k]@ == resource_candidates(views_of(roots@), name@)[k],
        decreases roots@.len() - i,
    {
        let direct = join_path(roots[i].as_str(), name);
        let mut nested = String::from_str(roots[i].as_str());
        nested.append("/resources/");
        nested.append(name);
        v.push(direct);
        v.push(nested);
        i = i + 1;
    }
    proof {
        assert(views_of(v@) =~= resource_candidates(views_of(roots@), name@));
    }
    v
}

/// Relies on std::path::Path::exists: asks the file system whether `p`
/// names an existing entity. The answer depends on the disk, so nothing is
/// promised of it.
#[verifier::external_body]
fn path_exists(p: &String) -> bool {
    std::path::Path::new(p.as_str()).exists()
}

/// Picks the index of the first set flag: the selection rule of every
/// ordered candidate search here.
pub fn first_flagged(flags: &Vec<bool>) -> (r: Option<usize>)
    ensures
        match r {
            Some(i) => i < flags@.len() && flags@[i as int] && (forall|j: int|
                0 <= j < i ==> !flags@[j]),
            None => forall|j: int| 0 <= j < flags@.len() ==> !flags@[j],
        },
{
    let mut i: usize = 0;
    while i < flags.len()
        invariant
            i <= flags@.len(),
            forall|j: int| 0 <= j < i ==> !flags@[j],
        decreases flags@.len() - i,
    {
        if flags[i] {
            return Some(i);
        }
        i = i + 1;
    }
    None
}

/// Picks the index of the first set flag, or the first index when none is
/// set: the complete selection rule of a candidate search that must always
/// answer — the first existing candidate, else the first candidate as the
/// default guess.
pub fn pick_or_first(flags: &Vec<bool>) -> (i: usize)
    requires
        flags@.len() > 0,
    ensures
        i < flags@.len(),
        (exists|j: int| 0 <= j < flags@.len() && flags@[j]) ==> flags@[i as int] && (forall|j: int|
            0 <= j < i ==> !flags@[j]),
        (forall|j: int| 0 <= j < flags@.len() ==> !flags@[j]) ==> i == 0,
{
    match first_flagged(flags) {
        Some(i) => i,
        None => 0,
    }
}

/// Probes each path in order and returns the first that exists on disk.
/// Which paths exist only the file system knows, so the promise is that
/// any answer is one of the given paths.
pub fn first_existing(paths: &Vec<String>) -> (r: Option<String>)
    ensures
        match r {
            Some(p) => views_of(paths@).contains(p@),
            None => true,
        },
{
    let mut flags: Vec<bool> = Vec::new();
    let mut i: usize = 0;
    while i < paths.len()
        invariant
            i <= paths@.len(),
            flags@.len() == i,
        decreases paths@.len() - i,
    {
        flags.push(path_exists(&paths[i]));
        i = i + 1;
    }
    match first_flagged(&flags) {
        Some(i) => {
            let p = paths[i].clone();
            proof {
                assert(views_of(paths@)[i as int] == p@);
            }
            Some(p)
        }
        None => None,
    }
}

/// Looks the cleaned name up under each root, first directly and then under
/// a nested `resources` directory, and returns the first candidate that
/// exists; `None` when none does.
pub fn resolve_bundled_resource(roots: &Vec<String>, name: &str) -> (r: Option<String>)
    ensures
        match r {
            Some(p) => resource_candidates(
                views_of(roots@),
                clean_resource_name(name@),
            ).contains(p@),
            None => true,
        },
{
    let cleaned = trim_slashes(name);
    let candidates = resource_candidate_paths(roots, cleaned);
    first_existing(&candidates)
}

/// The interpreter name a development build runs from the system search
/// path.
pub open spec fn dev_python_name(p: Platform) -> Seq<char> {
    match p {
        Platform::Windows => "python"@,
        Platform::Posix => "python3"@,
    }
}

/// The interpreter locations tried inside a bundled interpreter directory,
/// in order. The first entry doubles as the default guess when none
/// exists.
pub open spec fn python_candidate_names(p: Platform) -> Seq<Seq<char>> {
    match p {
        Platform::Windows => seq!["python.exe"@, "python3.exe"@, "python"@, "python3"@],
        Platform::Posix => seq![
            "bin/python3"@,
            "bin/python"@,
            "python3"@,
            "python"@,
            "bin/python3.10"@,
            "bin/python3.11"@,
            "bin/python3.12"@,
        ],
    }
}

/// The default guess for a resource nobody found: under the first root
/// when one is known, else the bare name.
pub open spec fn fallback_guess(roots: Seq<Seq<char>>, name: Seq<char>) -> Seq<char> {
    if roots.len() > 0 {
        roots[0] + "/"@ + name
    } else {
        name
    }
}

/// Every directory the bundled interpreter may be resolved to: the
/// resource candidates for `python_embed`, plus the fallback guess.
pub open spec fn python_embed_bases(roots: Seq<Seq<char>>) -> Seq<Seq<char>> {
    resource_candidates(roots, "python_embed"@).push(fallback_guess(roots, "python_embed"@))
}

/// Builds the ordered interpreter candidates under `base`.
fn python_candidate_paths(platform: Platform, base: &str) -> (v: Vec<String>)
    ensures
        views_of(v@) == python_candidate_names(platform).map_values(
            (|n: Seq<char>| base@ + "/"@ + n),
        ),
        v@.len() > 0,
{
    let mut v: Vec<String> = Vec::new();
    match platform {
        Platform::Windows => {
            v.push(join_path(base, "python.exe"));
            v.push(join_path(base, "python3.exe"));
            v.push(join_path(base, "python"));
            v.push(join_path(base, "python3"));
        }
        Platform::Posix => {
            v.push(join_path(base, "bin/python3"));
            v.push(join_path(base, "bin/python"));
            v.push(join_path(base, "python3"));
            v.push(join_path(base, "python"));
            v.push(join_path(base, "bin/python3.10"));
            v.push(join_path(base, "bin/python3.11"));
            v.push(join_path(base, "bin/python3.12"));
        }
    }
    proof {
        assert(views_of(v@) =~= python_candidate_names(platform).map_values(
            (|n: Seq<char>| base@ + "/"@ + n),
        ));
    }
    v
}

/// `r` is a legitimate packaged-build interpreter path: one of the ordered
/// candidates under one of the directories the bundled interpreter may
/// live in.
pub open spec fn packaged_python_ok(
    platform: Platform,
    roots: Seq<Seq<char>>,
    r: Seq<char>,
) -> bool {
    exists|b: Seq<char>|
        python_embed_bases(roots).contains(b) && python_candidate_names(platform).map_values(
            (|n: Seq<char>| b + "/"@ + n),
        ).contains(r)
}

proof fn lemma_python_embed_name_clean()
    ensures
        clean_resource_name("python_embed"@) == "python_embed"@,
{
    reveal_strlit("python_embed");
    let s = "python_embed"@;
    assert(s[0] != '/');
    assert(s[s.len() - 1] != '/');
}

/// Resolves the interpreter that runs the backend. A development build
/// answers with the bare interpreter name, found through the system search
/// path. A packaged build locates the bundled interpreter directory among
/// the resource roots (falling back to a guess under the first root, or to
/// the bare name when no root is known) and then tries the platform's
/// interpreter locations inside it, answering with the first that exists,
/// else with the first as the default guess — so a missing interpreter
/// surfaces later as a clear spawn error, not as a resolver error.
pub fn resolve_python(mode: BuildMode, platform: Platform, roots: &Vec<String>) -> (r: String)
    ensures
        mode is Development ==> r@ == dev_python_name(platform),
        mode is Packaged ==> packaged_python_ok(platform, views_of(roots@), r@),
{
    match mode {
        BuildMode::Development => {
            match platform {
                Platform::Windows => String::from_str("python"),
                Platform::Posix => String::from_str("python3"),
            }
        }
        BuildMode::Packaged => {
            let ghost rv = views_of(roots@);
            let ghost cands = resource_candidates(rv, "python_embed"@);
            let ghost fb = fallback_guess(rv, "python_embed"@);
            let base: String = match resolve_bundled_resource(roots, "python_embed") {
                Some(b) => {
                    proof {
                        lemma_python_embed_name_clean();
                        let i = choose|i: int| 0 <= i < cands.len() && cands[i] == b@;
                        assert(python_embed_bases(rv)[i] == b@);
                        assert(python_embed_bases(rv).contains(b@));
                    }
                    b
                }
                None => {
                    let guess = if roots.len() > 0 {
                        join_path(roots[0].as_str(), "python_embed")
                    } else {
                        String::from_str("python_embed")
                    };
                    proof {
                        assert(guess@ == fb);
                        assert(python_embed_bases(rv)[cands.len() as int] == fb);
                        assert(python_embed_bases(rv).contains(guess@));
                    }
                    guess
                }
            };
            let candidates = python_candidate_paths(platform, base.as_str());
            let ghost mapped = python_candidate_names(platform).map_values(
                (|n: Seq<char>| base@ + "/"@ + n),
            );
            let mut flags: Vec<bool> = Vec::new();
            let mut i: usize = 0;
            while i < candidates.len()
                invariant
                    i <= candidates@.len(),
                    flags@.len() == i,
                decreases candidates@.len() - i,
            {
                flags.push(path_exists(&candidates[i]));
                i = i + 1;
            }
            let j = pick_or_first(&flags);
            let chosen = candidates[j].clone();
            proof {
                assert(views_of(candidates@)[j as int] == chosen@);
                assert(mapped.contains(chosen@));
                assert(python_embed_bases(rv).contains(base@));
                assert(packaged_python_ok(platform, rv, chosen@));
            }
            chosen
        }
    }
}

/// `r` is a legitimate packaged-build agent directory: a resource
/// candidate for `agent`, or the fallback guess.
pub open spec fn packaged_agent_dir_ok(roots: Seq<Seq<char>>, r: Seq<char>) -> bool {
    resource_candidates(roots, "agent"@).contains(r) || r == fallback_guess(roots, "agent"@)
}

proof fn lemma_agent_name_clean()
    ensures
        clean_resource_name("agent"@) == "agent"@,
{
    reveal_strlit("agent");
    let s = "agent"@;
    assert(s[0] != '/');
    assert(s[s.len() - 1] != '/');
}

/// Resolves the backend's working directory. A development build uses the
/// `agent` tree under the current working directory (which the caller
/// passes in); a packaged build searches the resource roots for the
/// bundled `agent` directory, falling back to a guess under the first
/// root, or to the bare name when no root is known.
pub fn resolve_agent_dir(mode: BuildMode, roots: &Vec<String>, cwd: &str) -> (r: String)
    ensures
        mode is Development ==> r@ == cwd@ + "/"@ + "agent"@,
        mode is Packaged ==> packaged_agent_dir_ok(views_of(roots@), r@),
{
    match mode {
        BuildMode::Development => join_path(cwd, "agent"),
        BuildMode::Packaged => {
            match resolve_bundled_resource(roots, "agent") {
                Some(d) => {
                    proof {
                        lemma_agent_name_clean();
                    }
                    d
                }
                None => {
                    if roots.len() > 0 {
                        join_path(roots[0].as_str(), "agent")
                    } else {
                        String::from_str("agent")
                    }
                }
            }
        }
    }
}

} // verus!
