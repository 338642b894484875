use vstd::prelude::*;
use crate::error::WorkspaceError;

verus! {

pub open spec fn is_ident_char(c: char) -> bool {
    ('a' <= c && c <= 'z') || ('A' <= c && c <= 'Z') || ('0' <= c && c <= '9') || c == '_'
}

/// One or more ASCII letters, digits or underscores.
pub open spec fn is_ident(s: Seq<char>) -> bool {
    s.len() > 0 && forall|k: int| 0 <= k < s.len() ==> is_ident_char(#[trigger] s[k])
}

/// The text `::a::b`.
pub open spec fn path_text(a: Seq<char>, b: Seq<char>) -> Seq<char> {
    seq![':', ':'] + a + seq![':', ':'] + b
}

/// Whether `s` is `::a::b` for two identifiers `a` and `b`.
pub open spec fn is_path_text(s: Seq<char>) -> bool {
    exists|a: Seq<char>, b: Seq<char>| is_ident(a) && is_ident(b) && s == #[trigger] path_text(a, b)
}

/// The canonical serialized form: `::a::b` between double quotes.
pub open spec fn quoted_path_text(a: Seq<char>, b: Seq<char>) -> Seq<char> {
    seq!['"'] + path_text(a, b) + seq!['"']
}

/// A module `module_name` of the library known as `extern_crate_name`.
#[derive(Clone, Debug, PartialEq, Eq, PartialOrd, Ord, Hash)]
pub struct PseudoModulePath {
    pub extern_crate_name: String,
    pub module_name: String,
}

proof fn lemma_path_text_chars(a: Seq<char>, b: Seq<char>)
    ensures
        path_text(a, b).len() == a.len() + b.len() + 4,
        path_text(a, b)[0] == ':',
        path_text(a, b)[1] == ':',
        forall|k: int| 0 <= k < a.len() ==> path_text(a, b)[2 + k] == #[trigger] a[k],
        path_text(a, b)[2 + a.len() as int] == ':',
        path_text(a, b)[3 + a.len() as int] == ':',
        forall|k: int| 0 <= k < b.len() ==> path_text(a, b)[4 + a.len() as int + k] == #[trigger] b[k],
{
    let s = path_text(a, b);
    let p = seq![':', ':'] + a;
    let q = p + seq![':', ':'];
    assert(s == q + b);
    assert forall|k: int| 0 <= k < a.len() implies path_text(a, b)[2 + k] == #[trigger] a[k] by {
        assert(p[2 + k] == a[k]);
        assert(q[2 + k] == p[2 + k]);
    }
    assert(q[2 + a.len() as int] == ':');
    assert(q[3 + a.len() as int] == ':');
    assert(p[0] == ':' && p[1] == ':');
    assert(q[0] == ':' && q[1] == ':');
}

/// A text of the form `::a::b` splits in one way only.
pub proof fn lemma_path_text_unique(a: Seq<char>, b: Seq<char>, c: Seq<char>, d: Seq<char>)
    requires
        is_ident(a),
        is_ident(b),
        is_ident(c),
        is_ident(d),
        path_text(a, b) == path_text(c, d),
    ensures
        a == c,
        b == d,
{
    lemma_path_text_chars(a, b);
    lemma_path_text_chars(c, d);
    let s = path_text(a, b);
    if a.len() < c.len() {
        assert(s[2 + a.len() as int] == c[a.len() as int]);
        assert(is_ident_char(c[a.len() as int]));
    } else if a.len() > c.len() {
        assert(s[2 + c.len() as int] == a[c.len() as int]);
        assert(is_ident_char(a[c.len() as int]));
    }
    assert(a.len() == c.len());
    assert(a =~= c) by {
        assert forall|k: int| 0 <= k < a.len() implies a[k] == c[k] by {
            assert(s[2 + k] == a[k]);
        }
    }
    assert(b =~= d) by {
        assert forall|k: int| 0 <= k < b.len() implies b[k] == d[k] by {
            assert(s[4 + a.len() as int + k] == b[k]);
        }
    }
}

/// Parsing `::a::b` for identifiers `a` and `b` yields exactly `a` and `b`, and the
/// canonical form of that path is `"::a::b"`.
pub proof fn lemma_parse_round_trip(a: Seq<char>, b: Seq<char>)
    requires
        is_ident(a),
        is_ident(b),
    ensures
        is_path_text(path_text(a, b)),
        forall|c: Seq<char>, d: Seq<char>|
            is_ident(c) && is_ident(d) && #[trigger] path_text(c, d) == path_text(a, b) ==> c == a && d == b,
        quoted_path_text(a, b) == seq!['"', ':', ':'] + a + seq![':', ':'] + b + seq!['"'],
{
    assert forall|c: Seq<char>, d: Seq<char>|
        is_ident(c) && is_ident(d) && #[trigger] path_text(c, d) == path_text(a, b) implies c == a && d == b by {
        lemma_path_text_unique(a, b, c, d);
    }
    assert(quoted_path_text(a, b) =~= seq!['"', ':', ':'] + a + seq![':', ':'] + b + seq!['"']);
}

fn ident_char(c: char) -> (r: bool)
    ensures
        r == is_ident_char(c),
{
    ('a' <= c && c <= 'z') || ('A' <= c && c <= 'Z') || ('0' <= c && c <= '9') || c == '_'
}

/// The first position from `start` on whose character is not an identifier character,
/// or the length.
fn ident_end(s: &str, start: usize) -> (r: usize)
    requires
        start <= s@.len(),
    ensures
        start <= r <= s@.len(),
        forall|k: int| start <= k < r ==> is_ident_char(#[trigger] s@[k]),
        r < s@.len() ==> !is_ident_char(s@[r as int]),
{
    let n = s.unicode_len();
    let mut i = start;
    while i < n && ident_char(s.get_char(i))
        invariant
            n == s@.len(),
            start <= i <= n,
            forall|k: int| start <= k < i ==> is_ident_char(#[trigger] s@[k]),
        decreases n - i,
    {
        i = i + 1;
    }
    i
}

impl PseudoModulePath {
    /// The path of module `module_name` in the library `extern_crate_name`.
    pub fn new(extern_crate_name: &str, module_name: &str) -> (r: PseudoModulePath)
        ensures
            r.extern_crate_name@ == extern_crate_name@,
            r.module_name@ == module_name@,
    {
        PseudoModulePath {
            extern_crate_name: extern_crate_name.to_owned(),
            module_name: module_name.to_owned(),
        }
    }

    /// Parses `::a::b`, where `a` and `b` are one or more ASCII letters, digits or
    /// underscores; any other text is refused.
    pub fn from_str(s: &str) -> (r: Result<PseudoModulePath, WorkspaceError>)
        ensures
            r is Ok <==> is_path_text(s@),
            r matches Ok(p) ==> is_ident(p.extern_crate_name@) && is_ident(p.module_name@)
                && s@ == path_text(p.extern_crate_name@, p.module_name@),
            r matches Err(e) ==> e matches WorkspaceError::MalformedPseudoModulePath(t) && t@ == s@,
    {
        let n = s.unicode_len();
        if n < 2 || s.get_char(0) != ':' || s.get_char(1) != ':' {
            proof {
                if is_path_text(s@) {
                    let (a, b) = choose|a: Seq<char>, b: Seq<char>|
                        is_ident(a) && is_ident(b) && s@ == #[trigger] path_text(a, b);
                    lemma_path_text_chars(a, b);
                }
            }
            return Err(WorkspaceError::MalformedPseudoModulePath(s.to_owned()));
        }
        let i = ident_end(s, 2);
        let ok_first = i > 2 && i < n - 1 && s.get_char(i) == ':' && s.get_char(i + 1) == ':';
        let j = if ok_first { ident_end(s, i + 2) } else { 0 };
        if !ok_first || j <= i + 2 || j != n {
            proof {
                if is_path_text(s@) {
                    let (a, b) = choose|a: Seq<char>, b: Seq<char>|
                        is_ident(a) && is_ident(b) && s@ == #[trigger] path_text(a, b);
                    lemma_path_text_chars(a, b);
                    let e = 2 + a.len() as int;
                    if i < e {
                        assert(s@[i as int] == a[i - 2]);
                    } else if i > e {
                        assert(is_ident_char(s@[e]));
                    }
                    assert(i == e);
                    assert(ok_first);
                    if j < n {
                        assert(s@[j as int] == b[j - 4 - a.len() as int]);
                    }
                    assert(s@[4 + a.len() as int] == b[0]);
                }
            }
            return Err(WorkspaceError::MalformedPseudoModulePath(s.to_owned()));
        }
        let a = s.substring_char(2, i);
        let b = s.substring_char(i + 2, n);
        proof {
            assert forall|k: int| 0 <= k < a@.len() implies is_ident_char(#[trigger] a@[k]) by {
                assert(a@[k] == s@[2 + k]);
            }
            assert forall|k: int| 0 <= k < b@.len() implies is_ident_char(#[trigger] b@[k]) by {
                assert(b@[k] == s@[i + 2 + k]);
            }
            lemma_path_text_chars(a@, b@);
            assert(s@ =~= path_text(a@, b@));
        }
        Ok(PseudoModulePath { extern_crate_name: a.to_owned(), module_name: b.to_owned() })
    }

    /// The canonical form `"::a::b"`, quotes included.
    pub fn to_string(&self) -> (r: String)
        ensures
            r@ == quoted_path_text(self.extern_crate_name@, self.module_name@),
    {
        proof {
            reveal_strlit("\"::");
            reveal_strlit("::");
            reveal_strlit("\"");
        }
        let mut r = String::new();
        r.append("\"::");
        r.append(self.extern_crate_name.as_str());
        r.append("::");
        r.append(self.module_name.as_str());
        r.append("\"");
        assert(r@ =~= quoted_path_text(self.extern_crate_name@, self.module_name@));
        r
    }
}

} // verus!
