use vstd::prelude::*;
use vstd::string::*;

verus! {

/// The opaque center identifier inside a result element id: the characters
/// after the last `-`, or the whole string when it holds no `-`.
pub open spec fn spec_center_id(s: Seq<char>) -> Seq<char>
    decreases s.len(),
{
    if s.len() == 0 {
        s
    } else if s.last() == '-' {
        Seq::empty()
    } else {
        spec_center_id(s.drop_last()).push(s.last())
    }
}

/// A scan that stopped at `k`, with no `-` at or after `k` and a `-` just
/// before `k` (unless `k` is the start), has found the identifier suffix.
proof fn lemma_center_id_subrange(s: Seq<char>, k: int)
    requires
        0 <= k <= s.len(),
        forall|j: int| k <= j < s.len() ==> s[j] != '-',
        k > 0 ==> s[k - 1] == '-',
    ensures
        spec_center_id(s) == s.subrange(k, s.len() as int),
    decreases s.len(),
{
    if s.len() == 0 {
        assert(spec_center_id(s) =~= s.subrange(k, s.len() as int));
    } else if k == s.len() {
        assert(s.last() == '-');
        assert(spec_center_id(s) =~= s.subrange(k, s.len() as int));
    } else {
        assert(s.last() != '-');
        lemma_center_id_subrange(s.drop_last(), k);
        assert(spec_center_id(s) =~= s.subrange(k, s.len() as int));
    }
}

/// Every identifier of the form `<prefix>-<suffix>`, with `<suffix>` free of
/// `-`, is extracted as exactly `<suffix>`.
pub proof fn lemma_center_id_of_dashed(prefix: Seq<char>, suffix: Seq<char>)
    requires
        !suffix.contains('-'),
    ensures
        spec_center_id(prefix + seq!['-'] + suffix) == suffix,
    decreases suffix.len(),
{
    let s = prefix + seq!['-'] + suffix;
    if suffix.len() == 0 {
        assert(s.last() == '-');
        assert(spec_center_id(s) =~= suffix);
    } else {
        assert(s.last() == suffix.last());
        assert(suffix[suffix.len() - 1] == suffix.last());
        assert(suffix.last() != '-');
        assert(s.drop_last() =~= prefix + seq!['-'] + suffix.drop_last());
        assert(!suffix.drop_last().contains('-')) by {
            if suffix.drop_last().contains('-') {
                let j = choose|j: int|
                    0 <= j < suffix.drop_last().len() && suffix.drop_last()[j] == '-';
                assert(suffix[j] == '-');
            }
        }
        lemma_center_id_of_dashed(prefix, suffix.drop_last());
        assert(spec_center_id(s) =~= suffix);
    }
}

/// Extracts the opaque center identifier from a result element id: the
/// substring after the last `-` separator.
pub fn get_center_id(element_id: &str) -> (r: &str)
    ensures
        r@ == spec_center_id(element_id@),
{
    let n: usize = element_id.unicode_len();
    let mut i: usize = n;
    loop
        invariant
            i <= n,
            n == element_id@.len(),
            forall|j: int| i <= j < n ==> element_id@[j] != '-',
        ensures
            i <= n,
            forall|j: int| i <= j < n ==> element_id@[j] != '-',
            i > 0 ==> element_id@[i - 1] == '-',
        decreases i,
    {
        if i == 0 {
            break;
        }
        let c = element_id.get_char(i - 1);
        if c == '-' {
            break;
        }
        i = i - 1;
    }
    proof {
        lemma_center_id_subrange(element_id@, i as int);
    }
    element_id.substring_char(i, n)
}

} // verus!
