//! Whole-run scenarios: the plan is derived from the arguments, the build
//! runs once per resolved target in order, and packaging - when requested -
//! resolves its inputs from the package-description directory's contents.

use nupack::builder::run_build;
use nupack::package::{nuget_pack, VersionRead};
use nupack::plan::{derive_plan, Args};
use nupack::platform::Platform;

#[test]
fn all_builds_every_target_then_packs() {
    let args = Args {
        dir: None,
        all: true,
        build: vec![],
        pack: false,
    };
    let plan = derive_plan(&args);
    assert!(plan.should_build);
    assert!(plan.should_pack);
    assert_eq!(
        plan.targets,
        vec![
            "x86_64-pc-windows-msvc".to_string(),
            "aarch64-pc-windows-msvc".to_string(),
        ]
    );

    // Every build invocation succeeds, in canonical order.
    let statuses = vec![true, true];
    let (invoked, err) = run_build(&plan.targets, &statuses);
    assert_eq!(invoked, 2);
    assert!(err.is_none());

    // Packaging resolves the single descriptor and the version verbatim.
    let entries = vec!["MyPkg.nuspec".to_string(), "VERSION".to_string()];
    let inputs = nuget_pack(true, &entries, VersionRead::Found("1.2.3".to_string())).unwrap();
    assert_eq!(inputs.nuspec, "MyPkg.nuspec");
    assert_eq!(inputs.version, "1.2.3");
}

#[test]
fn explicit_build_without_pack_never_touches_the_package_directory() {
    let args = Args {
        dir: None,
        all: false,
        build: vec![Platform::x64],
        pack: false,
    };
    let plan = derive_plan(&args);
    assert!(plan.should_build);
    assert_eq!(plan.targets, vec!["x86_64-pc-windows-msvc".to_string()]);

    let statuses = vec![true];
    let (invoked, err) = run_build(&plan.targets, &statuses);
    assert_eq!(invoked, 1);
    assert!(err.is_none());

    // Packaging is not requested, so the absent package directory is never
    // checked and no error can arise from it.
    assert!(!plan.should_pack);
}
