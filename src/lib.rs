//! The decision core of a streaming shell-script rewriter that hardens the
//! legacy test idioms `[ -z $x ]`, `[ -n $x ]` and `[ x$v = x ]`.
pub mod microparsers;
pub mod situation;
pub mod sittest;
pub mod testhelpers;
