use vstd::prelude::*;

verus! {

/// The identifier under which a library name surfaces in source text: every hyphen
/// becomes an underscore.
pub open spec fn underscored(s: Seq<char>) -> Seq<char> {
    s.map_values(|c: char| if c == '-' { '_' } else { c })
}

/// Rewrites every `-` of `s` into `_`.
pub fn hyphens_to_underscores(s: &str) -> (r: String)
    ensures
        r@ == underscored(s@),
{
    let n = s.unicode_len();
    let mut r = String::new();
    let mut i: usize = 0;
    proof {
        reveal_strlit("_");
    }
    while i < n
        invariant
            n == s@.len(),
            i <= n,
            r@ == underscored(s@.subrange(0, i as int)),
            "_"@ == seq!['_'],
        decreases n - i,
    {
        let c = s.get_char(i);
        if c == '-' {
            r.append("_");
        } else {
            r.append(s.substring_char(i, i + 1));
        }
        assert(s@.subrange(0, i + 1) == s@.subrange(0, i as int).push(c));
        assert(underscored(s@.subrange(0, i + 1)) =~= underscored(s@.subrange(0, i as int)).push(
            if c == '-' { '_' } else { c },
        ));
        i = i + 1;
    }
    assert(s@.subrange(0, n as int) == s@);
    r
}

} // verus!
