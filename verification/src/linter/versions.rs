//! Version numbers.
use version_compare::{Cmp, Version};
use vstd::prelude::*;

verus! {

/// How one version stands to another.
#[derive(Copy, Clone, Debug, PartialEq, Eq, Structural)]
pub enum Comparison {
    Equal,
    NotEqual,
    Less,
    LessOrEqual,
    GreaterOrEqual,
    Greater,
}

/// How the version `left` stands to the version `right`, as the crate
/// `version_compare` tells; nothing where one of the two texts is no version.
pub uninterp spec fn version_comparison(left: Seq<char>, right: Seq<char>) -> Option<Comparison>;

/// Reads both texts with `version_compare::Version::from` and, where both are
/// versions, compares the left one to the right one with `Version::compare`.
/// What a version is and how versions are ordered is left to that crate: the
/// result is named.
#[verifier::external_body]
pub(crate) fn compare_versions(left: &str, right: &str) -> (order: Option<Comparison>)
    ensures
        order == version_comparison(left@, right@),
{
    let (left, right) = (Version::from(left)?, Version::from(right)?);
    Some(
        match left.compare(right) {
            Cmp::Eq => Comparison::Equal,
            Cmp::Ne => Comparison::NotEqual,
            Cmp::Lt => Comparison::Less,
            Cmp::Le => Comparison::LessOrEqual,
            Cmp::Ge => Comparison::GreaterOrEqual,
            Cmp::Gt => Comparison::Greater,
        },
    )
}

} // verus!
