//! Which of the files dropped into the chart folder are compressed charts
//! that the game unpacks at start.
use vstd::prelude::*;
use vstd::string::*;

verus! {

/// The ending of the name of a compressed chart.
pub open spec fn compressed_suffix() -> Seq<char> {
    ".shapoistcompress"@
}

/// Whether the path `s` names a compressed chart: its part after the last
/// dot is `shapoistcompress`, that is, it ends with `.shapoistcompress`.
pub open spec fn is_compressed_chart_name(s: Seq<char>) -> bool {
    &&& s.len() >= compressed_suffix().len()
    &&& s.subrange(s.len() - compressed_suffix().len(), s.len() as int) == compressed_suffix()
}

/// Whether `path` names a compressed chart.
pub fn is_compressed_chart(path: &str) -> (r: bool)
    ensures
        r == is_compressed_chart_name(path@),
{
    let suffix = ".shapoistcompress";
    proof {
        reveal_strlit(".shapoistcompress");
    }
    let n = path.unicode_len();
    let m = suffix.unicode_len();
    if n < m {
        return false;
    }
    let mut i: usize = 0;
    while i < m
        invariant
            m == suffix@.len(),
            suffix@ == compressed_suffix(),
            n == path@.len(),
            m <= n,
            i <= m,
            forall|j: int| 0 <= j < i ==> path@[n - m + j] == suffix@[j],
        decreases m - i,
    {
        if path.get_char(n - m + i) != suffix.get_char(i) {
            proof {
                assert(path@.subrange(n - m, n as int)[i as int] != suffix@[i as int]);
            }
            return false;
        }
        i = i + 1;
    }
    proof {
        assert(path@.subrange(n - m, n as int) =~= suffix@);
    }
    true
}

/// The paths among `files` that name compressed charts, in their order.
pub fn compressed_charts(files: &Vec<String>) -> (r: Vec<String>)
    ensures
        r@ == files@.filter(|s: String| is_compressed_chart_name(s@)),
{
    let ghost pred = |s: String| is_compressed_chart_name(s@);
    let mut r: Vec<String> = Vec::new();
    let mut i: usize = 0;
    while i < files.len()
        invariant
            i <= files.len(),
            pred == (|s: String| is_compressed_chart_name(s@)),
            r@ == files@.take(i as int).filter(pred),
        decreases files.len() - i,
    {
        let ghost before = r@;
        let name = files[i].as_str();
        let keep = is_compressed_chart(name);
        if keep {
            r.push(files[i].clone());
        }
        proof {
            let t = files@.take(i as int + 1);
            assert(t.drop_last() =~= files@.take(i as int));
            assert(t.last() == files@[i as int]);
            assert(pred(files@[i as int]) == keep);
            reveal_with_fuel(Seq::<String>::filter, 1);
            assert(t.filter(pred) == if pred(t.last()) {
                t.drop_last().filter(pred).push(t.last())
            } else {
                t.drop_last().filter(pred)
            });
            assert(r@ =~= t.filter(pred));
        }
        i = i + 1;
    }
    proof {
        assert(files@.take(files@.len() as int) =~= files@);
    }
    r
}

} // verus!
