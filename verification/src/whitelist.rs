//! The glob whitelist: the trusted boundary to the `globset` crate.
//!
//! A whitelist is a `globset::GlobSet`, compiled from globs. Verus sees
//! nothing inside a glob or a set; the contracts below speak of the globs
//! that a set was compiled from and of one relation, [`glob_matches`], that
//! stands for the crate's matching of one glob against one path.
use globset::Error as GlobError;
use globset::{Glob, GlobSet, GlobSetBuilder};
use vstd::prelude::*;

verus! {

/// `globset::Glob`: one parsed pattern, with the options it was parsed with.
#[verifier::external_type_specification]
#[verifier::external_body]
pub struct ExGlob(Glob);

/// `globset::GlobSet`: globs compiled for matching together.
#[verifier::external_type_specification]
#[verifier::external_body]
pub struct ExGlobSet(GlobSet);

/// `globset::GlobSetBuilder`: the globs gathered for a set.
#[verifier::external_type_specification]
#[verifier::external_body]
pub struct ExGlobSetBuilder(GlobSetBuilder);

/// `globset::Error`: why a pattern or a set was refused.
#[verifier::external_type_specification]
#[verifier::external_body]
pub struct ExGlobError(GlobError);

/// The glob that `globset` parses from a pattern with its default options, or
/// `None` where it refuses the pattern.
pub uninterp spec fn glob_of(pattern: Seq<char>) -> Option<Glob>;

/// Whether a glob matches a path. How a glob matches depends on the options
/// it was parsed with, and with the default options on the platform: a
/// backslash escapes where it is no path separator.
pub uninterp spec fn glob_matches(glob: Glob, path: Seq<char>) -> bool;

/// Whether `globset` can compile the globs into one set.
pub uninterp spec fn glob_set_compiles(globs: Seq<Glob>) -> bool;

/// The globs added to a builder, in the order of their adding.
pub uninterp spec fn builder_globs(builder: GlobSetBuilder) -> Seq<Glob>;

/// The globs that a set was compiled from, in the order of their adding. A
/// set keeps what it compiled, not the globs: this is the set as `globset`
/// describes it, a group of globs matched together.
pub uninterp spec fn set_globs(set: GlobSet) -> Seq<Glob>;

/// `globset::Glob::new`: parses a pattern with the default options. What it
/// returns depends on the pattern alone; [`glob_of`] names it.
pub assume_specification[ Glob::new ](pattern: &str) -> (r: Result<Glob, GlobError>)
    ensures
        r is Ok <==> glob_of(pattern@) is Some,
        r matches Ok(glob) ==> glob_of(pattern@) == Some(glob),
;

/// `globset::GlobSetBuilder::new`: a builder that holds no glob.
pub assume_specification[ GlobSetBuilder::new ]() -> (builder: GlobSetBuilder)
    ensures
        builder_globs(builder) == Seq::<Glob>::empty(),
;

/// `globset::GlobSetBuilder::add`: appends one glob to the builder.
#[verifier::external_body]
pub(crate) fn builder_add(builder: &mut GlobSetBuilder, glob: Glob)
    ensures
        builder_globs(*final(builder)) == builder_globs(*old(builder)).push(glob),
{
    builder.add(glob);
}

/// `globset::GlobSetBuilder::build`: compiles the globs added so far.
/// Whether that succeeds depends on the globs alone, and a builder without
/// globs always gives the empty set. The set is compiled from all the globs,
/// in their order; the builder is left as it was.
pub assume_specification[ GlobSetBuilder::build ](builder: &GlobSetBuilder) -> (r: Result<
    GlobSet,
    GlobError,
>)
    ensures
        r is Ok <==> glob_set_compiles(builder_globs(*builder)),
        builder_globs(*builder).len() == 0 ==> r is Ok,
        r matches Ok(set) ==> set_globs(set) == builder_globs(*builder),
;

/// `globset::GlobSet::is_match`: whether any glob of the set matches the
/// path. A set without globs matches nothing.
#[verifier::external_body]
pub(crate) fn set_is_match(set: &GlobSet, path: &str) -> (r: bool)
    ensures
        r == (exists|i: int|
            0 <= i < set_globs(*set).len() && #[trigger] glob_matches(set_globs(*set)[i], path@)),
{
    set.is_match(path)
}

} // verus!
