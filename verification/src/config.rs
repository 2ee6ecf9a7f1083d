//! The immutable run configuration.
//!
//! A configuration is created once at startup — from a key-value file
//! by the binary front end, or from the built-in defaults — and never
//! mutated afterwards. Every worker reads the plan derived from it.

use vstd::prelude::*;
use vstd::string::StringExecFns;

verus! {

/// The run configuration, as loaded from a file or from the defaults.
#[derive(Debug, Clone)]
pub struct Config {
    /// Default optimization level, a 0-6 ordinal.
    pub level: u8,
    /// Strip safe-to-remove metadata chunks.
    pub strip_metadata: bool,
    /// Optimize fully transparent pixels.
    pub optimize_alpha: bool,
    /// Faster but less thorough filter evaluation.
    pub fast_eval: bool,
    /// Names of the row filters to try.
    pub filters: Vec<String>,
    /// Compression backend: `"zopfli"` selects the exhaustive engine,
    /// anything else the fast one.
    pub deflater: String,
    /// Compression level (fast backend, valid 1-12) or iteration
    /// count (exhaustive backend, valid 1-255).
    pub deflate_level: u8,
}

impl Default for Config {
    /// The built-in defaults: maximum preset level, metadata stripped,
    /// alpha optimized, thorough evaluation, the seven standard filters,
    /// and the fast backend at its highest level.
    fn default() -> (r: Self)
        ensures
            r.level == 6,
            r.strip_metadata,
            r.optimize_alpha,
            !r.fast_eval,
            r.filters@.len() == 7,
            r.filters@[0]@ == "none"@,
            r.filters@[1]@ == "sub"@,
            r.filters@[2]@ == "up"@,
            r.filters@[3]@ == "average"@,
            r.filters@[4]@ == "paeth"@,
            r.filters@[5]@ == "minsum"@,
            r.filters@[6]@ == "bigrams"@,
            r.deflater@ == "libdeflater"@,
            r.deflate_level == 12,
    {
        let mut filters: Vec<String> = Vec::new();
        filters.push(String::from_str("none"));
        filters.push(String::from_str("sub"));
        filters.push(String::from_str("up"));
        filters.push(String::from_str("average"));
        filters.push(String::from_str("paeth"));
        filters.push(String::from_str("minsum"));
        filters.push(String::from_str("bigrams"));
        Config {
            level: 6,
            strip_metadata: true,
            optimize_alpha: true,
            fast_eval: false,
            filters,
            deflater: String::from_str("libdeflater"),
            deflate_level: 12,
        }
    }
}

} // verus!
