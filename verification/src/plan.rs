//! Building the optimization plan.
//!
//! A plan is the fully resolved, immutable set of optimization
//! parameters applied uniformly to every file of one run. It is
//! derived once from the configuration plus an optional level
//! override, and shared read-only by all workers afterwards.

use vstd::prelude::*;
use vstd::string::StringExecFns;
use crate::config::Config;
use crate::filter::{Filter, parse_filter, spec_parse_filter};

verus! {

/// The resolved compression backend together with its level.
#[derive(Copy, Clone, Debug, PartialEq, Eq, Structural)]
pub enum Deflater {
    /// The fast, deterministic backend; `compression` is 1-12.
    Libdeflater { compression: u8 },
    /// The slow, exhaustive backend; `iterations` is at least 1.
    Zopfli { iterations: u8 },
}

/// The mathematical content of a [`Plan`].
#[verifier::ext_equal]
pub struct PlanView {
    pub level: u8,
    pub strip_metadata: bool,
    pub optimize_alpha: bool,
    pub fast_eval: bool,
    pub filters: Seq<Filter>,
    pub deflater: Deflater,
}

/// The resolved optimization plan of one run. Immutable once built;
/// every worker reads it, nobody writes it.
#[derive(Debug, Clone, PartialEq, Eq)]
pub struct Plan {
    /// Effective preset level, a 0-6 ordinal.
    pub level: u8,
    /// Strip safe-to-remove metadata chunks.
    pub strip_metadata: bool,
    /// Optimize fully transparent pixels.
    pub optimize_alpha: bool,
    /// Faster but less thorough filter evaluation.
    pub fast_eval: bool,
    /// The resolved filter set: known names only, first occurrence
    /// first, no duplicates.
    pub filters: Vec<Filter>,
    /// The resolved compression backend.
    pub deflater: Deflater,
}

impl View for Plan {
    type V = PlanView;

    open spec fn view(&self) -> PlanView {
        PlanView {
            level: self.level,
            strip_metadata: self.strip_metadata,
            optimize_alpha: self.optimize_alpha,
            fast_eval: self.fast_eval,
            filters: self.filters@,
            deflater: self.deflater,
        }
    }
}

/// The level override if one was given, else the configured level.
pub open spec fn spec_effective_level(config_level: u8, level_override: Option<u8>) -> u8 {
    match level_override {
        Some(l) => l,
        None => config_level,
    }
}

/// The filters denoted by a list of names: unknown names dropped,
/// duplicates collapsed to their first occurrence, order of first
/// occurrence kept.
pub open spec fn known_filters_of(names: Seq<Seq<char>>) -> Seq<Filter>
    decreases names.len(),
{
    if names.len() == 0 {
        Seq::empty()
    } else {
        let rest = known_filters_of(names.drop_last());
        match spec_parse_filter(names.last()) {
            Some(f) => if rest.contains(f) {
                rest
            } else {
                rest.push(f)
            },
            None => rest,
        }
    }
}

/// The names of a list that denote no known filter, in order,
/// duplicates kept: the warning side-channel of the plan builder.
pub open spec fn spec_unknown_filters(names: Seq<Seq<char>>) -> Seq<Seq<char>>
    decreases names.len(),
{
    if names.len() == 0 {
        Seq::empty()
    } else {
        let rest = spec_unknown_filters(names.drop_last());
        if spec_parse_filter(names.last()) is None {
            rest.push(names.last())
        } else {
            rest
        }
    }
}

/// The resolved backend: `"zopfli"` (exact match) selects the
/// exhaustive backend, anything else the fast one. A level that is
/// zero or out of the chosen backend's valid range resolves to the
/// minimum valid value 1.
pub open spec fn spec_deflater(backend: Seq<char>, level: u8) -> Deflater {
    if backend == "zopfli"@ {
        Deflater::Zopfli { iterations: if level == 0 { 1 } else { level } }
    } else {
        Deflater::Libdeflater {
            compression: if 1 <= level && level <= 12 {
                level
            } else {
                1
            },
        }
    }
}

/// The plan a configuration and an optional level override resolve to.
pub open spec fn spec_build_plan(c: &Config, level_override: Option<u8>) -> PlanView {
    PlanView {
        level: spec_effective_level(c.level, level_override),
        strip_metadata: c.strip_metadata,
        optimize_alpha: c.optimize_alpha,
        fast_eval: c.fast_eval,
        filters: known_filters_of(c.filters.deep_view()),
        deflater: spec_deflater(c.deflater@, c.deflate_level),
    }
}

/// Whether `v` holds `f`.
fn filter_in(v: &Vec<Filter>, f: Filter) -> (r: bool)
    ensures
        r == v@.contains(f),
{
    for i in 0..v.len()
        invariant
            forall|j: int| 0 <= j < i ==> v@[j] != f,
    {
        if v[i] == f {
            return true;
        }
    }
    false
}

/// Translate the configuration plus an optional level override into
/// the concrete optimization plan. Pure, total: unknown filter names
/// are dropped (see [`unknown_filters`] for the warning side-channel),
/// an invalid compression level is clamped to the minimum valid value.
pub fn build_options(config: &Config, level_override: Option<u8>) -> (r: Plan)
    ensures
        r@ == spec_build_plan(config, level_override),
{
    let effective_level = match level_override {
        Some(l) => l,
        None => config.level,
    };
    let mut filters: Vec<Filter> = Vec::new();
    let n = config.filters.len();
    let ghost names = config.filters.deep_view();
    for i in 0..n
        invariant
            n == config.filters@.len(),
            names == config.filters.deep_view(),
            names.len() == n,
            filters@ == known_filters_of(names.take(i as int)),
    {
        proof {
            assert(names.take(i + 1).drop_last() =~= names.take(i as int));
            assert(names.take(i + 1).last() == names[i as int]);
            assert(names[i as int] == config.filters@[i as int]@);
        }
        match parse_filter(config.filters[i].as_str()) {
            Some(f) => {
                if !filter_in(&filters, f) {
                    filters.push(f);
                }
            },
            None => {},
        }
    }
    proof {
        assert(names.take(n as int) =~= names);
    }
    let deflater = if config.deflater == String::from_str("zopfli") {
        Deflater::Zopfli {
            iterations: if config.deflate_level == 0 {
                1
            } else {
                config.deflate_level
            },
        }
    } else {
        Deflater::Libdeflater {
            compression: if 1 <= config.deflate_level && config.deflate_level <= 12 {
                config.deflate_level
            } else {
                1
            },
        }
    };
    let r = Plan {
        level: effective_level,
        strip_metadata: config.strip_metadata,
        optimize_alpha: config.optimize_alpha,
        fast_eval: config.fast_eval,
        filters,
        deflater,
    };
    proof {
        assert(r@ =~= spec_build_plan(config, level_override));
    }
    r
}

/// The names of `names` that denote no known filter, in order: what
/// the plan builder warns about instead of failing.
pub fn unknown_filters(names: &Vec<String>) -> (r: Vec<String>)
    ensures
        r.deep_view() == spec_unknown_filters(names.deep_view()),
{
    let mut r: Vec<String> = Vec::new();
    let n = names.len();
    let ghost nv = names.deep_view();
    for i in 0..n
        invariant
            n == names@.len(),
            nv == names.deep_view(),
            nv.len() == n,
            r.deep_view() == spec_unknown_filters(nv.take(i as int)),
    {
        proof {
            assert(nv.take(i + 1).drop_last() =~= nv.take(i as int));
            assert(nv.take(i + 1).last() == nv[i as int]);
            assert(nv[i as int] == names@[i as int]@);
        }
        if parse_filter(names[i].as_str()).is_none() {
            r.push(names[i].clone());
            proof {
                assert(r.deep_view() =~= spec_unknown_filters(nv.take(i + 1)));
            }
        }
    }
    proof {
        assert(nv.take(n as int) =~= nv);
    }
    r
}

/// The level an already resolved backend carries.
pub open spec fn deflater_level(d: Deflater) -> u8 {
    match d {
        Deflater::Libdeflater { compression } => compression,
        Deflater::Zopfli { iterations } => iterations,
    }
}

/// Plan building is deterministic: two plans built from the same
/// configuration and the same override are equal.
pub proof fn lemma_build_plan_deterministic(
    c: &Config,
    level_override: Option<u8>,
    p1: PlanView,
    p2: PlanView,
)
    requires
        p1 == spec_build_plan(c, level_override),
        p2 == spec_build_plan(c, level_override),
    ensures
        p1 == p2,
{
}

/// The resolved filter set is exact: it has no duplicates, and holds
/// a filter if and only if some name of the list denotes it.
pub proof fn lemma_filter_set_exact(names: Seq<Seq<char>>)
    ensures
        forall|i: int, j: int|
            0 <= i < j < known_filters_of(names).len() ==> known_filters_of(names)[i]
                != known_filters_of(names)[j],
        forall|f: Filter|
            known_filters_of(names).contains(f) <==> (exists|k: int|
                0 <= k < names.len() && spec_parse_filter(names[k]) == Some(f)),
    decreases names.len(),
{
    if names.len() == 0 {
    } else {
        let prefix = names.drop_last();
        lemma_filter_set_exact(prefix);
        let rest = known_filters_of(prefix);
        let result = known_filters_of(names);
        assert(names.last() == names[names.len() - 1]);
        assert(forall|k: int| 0 <= k < prefix.len() ==> prefix[k] == names[k]);
        assert forall|f: Filter|
            result.contains(f) <==> (exists|k: int|
                0 <= k < names.len() && spec_parse_filter(names[k]) == Some(f)) by {
            match spec_parse_filter(names.last()) {
                Some(f0) => {
                    if rest.contains(f0) {
                        assert(result == rest);
                        if f == f0 {
                            let k0 = choose|k: int|
                                0 <= k < prefix.len() && spec_parse_filter(prefix[k]) == Some(f0);
                            assert(spec_parse_filter(names[k0]) == Some(f0));
                        }
                    } else {
                        assert(result == rest.push(f0));
                        if f == f0 {
                            assert(result[rest.len() as int] == f0);
                            assert(result.contains(f0));
                            assert(spec_parse_filter(names[names.len() - 1]) == Some(f0));
                        } else {
                            assert(result.contains(f) <==> rest.contains(f)) by {
                                if result.contains(f) {
                                    let k0 = choose|k: int|
                                        0 <= k < result.len() && result[k] == f;
                                    assert(k0 < rest.len());
                                    assert(rest[k0] == f);
                                }
                                if rest.contains(f) {
                                    let k1 = choose|k: int| 0 <= k < rest.len() && rest[k] == f;
                                    assert(result[k1] == f);
                                }
                            }
                        }
                    }
                },
                None => {
                    assert(result == rest);
                },
            }
        }
        assert forall|i: int, j: int| 0 <= i < j < result.len() implies result[i] != result[j] by {
            match spec_parse_filter(names.last()) {
                Some(f0) => {
                    if !rest.contains(f0) {
                        assert(result == rest.push(f0));
                        if j == rest.len() {
                            assert(result[i] == rest[i]);
                            assert(rest.contains(rest[i]));
                        }
                    }
                },
                None => {},
            }
        }
    }
}

/// The resolved compression level is always valid for its backend,
/// and an invalid or zero configured level resolves to the minimum 1.
pub proof fn lemma_deflate_level_clamped(backend: Seq<char>, level: u8)
    ensures
        1 <= deflater_level(spec_deflater(backend, level)),
        spec_deflater(backend, level) is Libdeflater ==> deflater_level(
            spec_deflater(backend, level),
        ) <= 12,
        level == 0 ==> deflater_level(spec_deflater(backend, level)) == 1,
        spec_deflater(backend, level) is Libdeflater && level > 12 ==> deflater_level(
            spec_deflater(backend, level),
        ) == 1,
{
}

} // verus!
