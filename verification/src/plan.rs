//! The user's requested action, and the derivation of the concrete plan:
//! which targets to build, in which order, and whether to pack. The
//! derivation is total over valid arguments and has no side effects.

use vstd::prelude::*;
use crate::platform::{Platform, spec_target};

verus! {

/// The user's request, as it arrives from the command line: an optional
/// working-directory override, the "build everything" flag, the explicitly
/// requested platforms in request order (duplicates preserved), and the
/// "pack" flag. Immutable once created.
#[derive(Debug)]
pub struct Args {
    pub dir: Option<String>,
    pub all: bool,
    pub build: Vec<Platform>,
    pub pack: bool,
}

/// The concrete plan derived from `Args`: whether to build, the target
/// triples to build in order, and whether to pack afterwards.
#[derive(Debug)]
pub struct ActionPlan {
    pub should_build: bool,
    pub targets: Vec<String>,
    pub should_pack: bool,
}

/// Every known platform, in canonical enumeration order.
pub open spec fn all_platforms() -> Seq<Platform> {
    seq![Platform::x64, Platform::ARM64]
}

/// The platforms a request selects: the full set in canonical order when
/// "all" is set and no platform was named explicitly, otherwise exactly
/// the explicit list in request order.
pub open spec fn chosen_platforms(all: bool, build: Seq<Platform>) -> Seq<Platform> {
    if all && build.len() == 0 {
        all_platforms()
    } else {
        build
    }
}

/// The target triples of a sequence of platforms, in order.
pub open spec fn targets_of(ps: Seq<Platform>) -> Seq<Seq<char>> {
    ps.map_values(|p: Platform| spec_target(p))
}

/// Derives the plan from the arguments: build iff "all" is set or at least
/// one platform was named; the targets are those of the chosen platforms in
/// order; pack iff "all" or the pack flag is set.
pub fn derive_plan(args: &Args) -> (plan: ActionPlan)
    ensures
        plan.should_build == (args.all || args.build@.len() > 0),
        plan.should_pack == (args.all || args.pack),
        plan.targets.deep_view() == targets_of(chosen_platforms(args.all, args.build@)),
{
    let mut targets: Vec<String> = Vec::new();
    let mut i: usize = 0;
    while i < args.build.len()
        invariant
            i <= args.build@.len(),
            targets@.len() == i,
            forall|j: int| 0 <= j < i ==> targets@[j]@ == spec_target(args.build@[j]),
        decreases args.build@.len() - i,
    {
        let p = args.build[i];
        targets.push(p.to_rust_target().to_owned());
        i += 1;
    }
    if args.all && targets.len() == 0 {
        targets.push(Platform::x64.to_rust_target().to_owned());
        targets.push(Platform::ARM64.to_rust_target().to_owned());
        proof {
            assert(targets.deep_view() =~~= targets_of(all_platforms()));
        }
    } else {
        proof {
            assert(targets.deep_view() =~~= targets_of(args.build@));
        }
    }
    ActionPlan {
        should_build: args.all || args.build.len() > 0,
        targets,
        should_pack: args.all || args.pack,
    }
}

} // verus!
