use sanhuoai::launch::{BuildMode, Platform};
use sanhuoai::resolve::{
    candidate_resource_roots, first_existing, first_flagged, join_path, pick_or_first,
    resolve_agent_dir, resolve_bundled_resource, resolve_python, resource_candidate_paths,
    trim_slashes,
};

#[test]
fn join_uses_single_separator() {
    assert_eq!(join_path("a", "b"), "a/b");
    assert_eq!(join_path("", "b"), "/b");
    assert_eq!(join_path("/opt/app", "agent"), "/opt/app/agent");
}

#[test]
fn trim_strips_only_outer_slashes() {
    assert_eq!(trim_slashes("agent"), "agent");
    assert_eq!(trim_slashes("/agent"), "agent");
    assert_eq!(trim_slashes("agent///"), "agent");
    assert_eq!(trim_slashes("//a/b//"), "a/b");
    assert_eq!(trim_slashes("////"), "");
    assert_eq!(trim_slashes(""), "");
}

#[test]
fn roots_are_ordered_bundle_then_beside_exe() {
    let roots = candidate_resource_roots(
        &Some(String::from("/bundle/Resources")),
        &Some(String::from("/opt/app")),
    );
    assert_eq!(
        roots,
        vec![
            String::from("/bundle/Resources"),
            String::from("/opt/app/resources"),
            String::from("/opt/app"),
        ]
    );
}

#[test]
fn roots_with_missing_sources() {
    let roots = candidate_resource_roots(&None, &Some(String::from("/opt/app")));
    assert_eq!(
        roots,
        vec![String::from("/opt/app/resources"), String::from("/opt/app")]
    );
    let roots = candidate_resource_roots(&Some(String::from("/bundle")), &None);
    assert_eq!(roots, vec![String::from("/bundle")]);
    let roots = candidate_resource_roots(&None, &None);
    assert!(roots.is_empty());
}

#[test]
fn candidates_try_direct_then_nested_per_root() {
    let roots = vec![String::from("/r1"), String::from("/r2")];
    let cands = resource_candidate_paths(&roots, "agent");
    assert_eq!(
        cands,
        vec![
            String::from("/r1/agent"),
            String::from("/r1/resources/agent"),
            String::from("/r2/agent"),
            String::from("/r2/resources/agent"),
        ]
    );
}

#[test]
fn first_flagged_picks_earliest() {
    assert_eq!(first_flagged(&vec![false, true, true]), Some(1));
    assert_eq!(first_flagged(&vec![true]), Some(0));
    assert_eq!(first_flagged(&vec![false, false]), None);
    assert_eq!(first_flagged(&vec![]), None);
}

#[test]
fn pick_or_first_defaults_to_the_first_candidate() {
    assert_eq!(pick_or_first(&vec![false, true, true]), 1);
    assert_eq!(pick_or_first(&vec![true, false]), 0);
    // nothing set: the first candidate is the default guess
    assert_eq!(pick_or_first(&vec![false, false, false]), 0);
    assert_eq!(pick_or_first(&vec![false]), 0);
}

#[test]
fn first_existing_probes_the_disk() {
    // the root directory exists on every system this runs on
    let paths = vec![
        String::from("/surely-absent-sanhuoai-path"),
        String::from("/"),
    ];
    assert_eq!(first_existing(&paths), Some(String::from("/")));
    let paths = vec![String::from("/surely-absent-sanhuoai-path")];
    assert_eq!(first_existing(&paths), None);
}

#[test]
fn bundled_resource_takes_first_existing_candidate() {
    // "/" as the only root makes "//tmp" the first candidate for "tmp"
    let roots = vec![String::from("/")];
    assert_eq!(
        resolve_bundled_resource(&roots, "tmp"),
        Some(String::from("//tmp"))
    );
    assert_eq!(
        resolve_bundled_resource(&roots, "surely-absent-sanhuoai-name"),
        None
    );
}

#[test]
fn development_python_is_the_system_interpreter() {
    let roots: Vec<String> = vec![];
    assert_eq!(
        resolve_python(BuildMode::Development, Platform::Posix, &roots),
        "python3"
    );
    assert_eq!(
        resolve_python(BuildMode::Development, Platform::Windows, &roots),
        "python"
    );
}

#[test]
fn packaged_python_falls_back_to_default_guess() {
    // no candidate exists: the default guess under the first root comes back
    let roots = vec![String::from("/surely-absent-sanhuoai-root")];
    assert_eq!(
        resolve_python(BuildMode::Packaged, Platform::Posix, &roots),
        "/surely-absent-sanhuoai-root/python_embed/bin/python3"
    );
    assert_eq!(
        resolve_python(BuildMode::Packaged, Platform::Windows, &roots),
        "/surely-absent-sanhuoai-root/python_embed/python.exe"
    );
}

#[test]
fn fallbacks_without_roots_are_bare_names() {
    let roots: Vec<String> = vec![];
    assert_eq!(resolve_agent_dir(BuildMode::Packaged, &roots, "/work"), "agent");
    assert_eq!(
        resolve_python(BuildMode::Packaged, Platform::Posix, &roots),
        "python_embed/bin/python3"
    );
    assert_eq!(
        resolve_python(BuildMode::Packaged, Platform::Windows, &roots),
        "python_embed/python.exe"
    );
}

#[test]
fn development_agent_dir_is_under_cwd() {
    let roots: Vec<String> = vec![];
    assert_eq!(
        resolve_agent_dir(BuildMode::Development, &roots, "/work"),
        "/work/agent"
    );
}

#[test]
fn packaged_agent_dir_falls_back_to_first_root() {
    let roots = vec![String::from("/surely-absent-sanhuoai-root")];
    assert_eq!(
        resolve_agent_dir(BuildMode::Packaged, &roots, "/work"),
        "/surely-absent-sanhuoai-root/agent"
    );
}
