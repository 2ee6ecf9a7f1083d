//! Row filter identifiers and their names.
//!
//! A configuration names the row filter strategies the optimization
//! engine should try. Names are matched ASCII case-insensitively;
//! a name that matches none of the known filters parses to `None`
//! (callers drop it with a warning rather than failing).

use vstd::prelude::*;
use crate::chars::matches_ci;

verus! {

/// A known row filter strategy of the optimization engine.
#[derive(Copy, Clone, Debug, PartialEq, Eq, Structural)]
pub enum Filter {
    /// No filtering.
    NoFilter,
    /// Subtract the byte to the left.
    Sub,
    /// Subtract the byte above.
    Up,
    /// Subtract the average of left and above.
    Average,
    /// The Paeth predictor.
    Paeth,
    /// Heuristic: minimum sum of absolute differences.
    MinSum,
    /// Heuristic: lowest entropy.
    Entropy,
    /// Heuristic: fewest distinct bigrams.
    Bigrams,
    /// Heuristic: lowest bigram entropy.
    BigEnt,
    /// Brute force: try everything.
    Brute,
}

/// The filter a name denotes, matched ASCII case-insensitively,
/// or `None` for an unknown name.
pub open spec fn spec_parse_filter(name: Seq<char>) -> Option<Filter> {
    if matches_ci(name, "none"@) {
        Some(Filter::NoFilter)
    } else if matches_ci(name, "sub"@) {
        Some(Filter::Sub)
    } else if matches_ci(name, "up"@) {
        Some(Filter::Up)
    } else if matches_ci(name, "average"@) {
        Some(Filter::Average)
    } else if matches_ci(name, "paeth"@) {
        Some(Filter::Paeth)
    } else if matches_ci(name, "minsum"@) {
        Some(Filter::MinSum)
    } else if matches_ci(name, "entropy"@) {
        Some(Filter::Entropy)
    } else if matches_ci(name, "bigrams"@) {
        Some(Filter::Bigrams)
    } else if matches_ci(name, "bigent"@) {
        Some(Filter::BigEnt)
    } else if matches_ci(name, "brute"@) {
        Some(Filter::Brute)
    } else {
        None
    }
}

/// Parse a filter name into a known filter identifier.
pub fn parse_filter(name: &str) -> (r: Option<Filter>)
    ensures
        r == spec_parse_filter(name@),
{
    if crate::chars::matches_lower(name, "none") {
        Some(Filter::NoFilter)
    } else if crate::chars::matches_lower(name, "sub") {
        Some(Filter::Sub)
    } else if crate::chars::matches_lower(name, "up") {
        Some(Filter::Up)
    } else if crate::chars::matches_lower(name, "average") {
        Some(Filter::Average)
    } else if crate::chars::matches_lower(name, "paeth") {
        Some(Filter::Paeth)
    } else if crate::chars::matches_lower(name, "minsum") {
        Some(Filter::MinSum)
    } else if crate::chars::matches_lower(name, "entropy") {
        Some(Filter::Entropy)
    } else if crate::chars::matches_lower(name, "bigrams") {
        Some(Filter::Bigrams)
    } else if crate::chars::matches_lower(name, "bigent") {
        Some(Filter::BigEnt)
    } else if crate::chars::matches_lower(name, "brute") {
        Some(Filter::Brute)
    } else {
        None
    }
}

} // verus!
