//! Code coverage: the ranges of a script that ran, and how many times.
use vstd::prelude::*;

verus! {

/// A range of a script and how many times it ran.
#[derive(Debug, Clone, Copy, PartialEq, Eq, Structural)]
pub struct CoverageRange {
    pub start_offset: i64,
    pub end_offset: i64,
    pub count: i64,
}

/// The coverage of one script: its URL and its ranges.
#[derive(Debug)]
pub struct JSCoverageEntry {
    pub url: String,
    pub ranges: Vec<CoverageRange>,
}

/// The coverage of one script as the profiler reports it: the ranges of
/// each of its functions.
#[derive(Debug)]
pub struct ScriptCoverage {
    pub url: String,
    pub functions: Vec<Vec<CoverageRange>>,
}

/// The ranges of all functions, one function after the other.
pub open spec fn flat_ranges(fs: Seq<Vec<CoverageRange>>) -> Seq<CoverageRange>
    decreases fs.len(),
{
    if fs.len() == 0 {
        Seq::empty()
    } else {
        flat_ranges(fs.drop_last()) + fs.last()@
    }
}

/// The coverage of a script: its URL, and the ranges of its functions in order.
pub fn js_coverage_entry(script: ScriptCoverage) -> (r: JSCoverageEntry)
    ensures
        r.url == script.url,
        r.ranges@ == flat_ranges(script.functions@),
{
    let ScriptCoverage { url, functions } = script;
    let mut ranges: Vec<CoverageRange> = Vec::new();
    let mut i: usize = 0;
    proof {
        assert(functions@.take(0) =~= Seq::<Vec<CoverageRange>>::empty());
    }
    while i < functions.len()
        invariant
            i <= functions.len(),
            ranges@ == flat_ranges(functions@.take(i as int)),
        decreases functions.len() - i,
    {
        let f = &functions[i];
        let ghost before = ranges@;
        let mut j: usize = 0;
        while j < f.len()
            invariant
                j <= f.len(),
                ranges@ == before + f@.take(j as int),
            decreases f.len() - j,
        {
            ranges.push(f[j]);
            proof {
                assert(f@.take(j + 1) =~= f@.take(j as int).push(f@[j as int]));
                assert(ranges@ =~= before + f@.take(j + 1));
            }
            j = j + 1;
        }
        proof {
            assert(f@.take(j as int) =~= f@);
            assert(functions@.take(i + 1).drop_last() =~= functions@.take(i as int));
        }
        i = i + 1;
    }
    proof {
        assert(functions@.take(i as int) =~= functions@);
    }
    JSCoverageEntry { url, ranges }
}

} // verus!
