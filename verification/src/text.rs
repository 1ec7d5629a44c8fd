//! Character-level text handling: ASCII whitespace trimming and ASCII
//! lowercasing, the two normalization steps applied to client-supplied
//! identifiers (most importantly email addresses) before any validation
//! or lookup.
use vstd::prelude::*;

verus! {

/// ASCII whitespace, the only whitespace this library trims.
pub open spec fn is_ws(c: char) -> bool {
    c == ' ' || c == '\t' || c == '\n' || c == '\r'
}

/// Lowercases one ASCII letter; every other character is left unchanged.
pub open spec fn lower_char(c: char) -> char {
    if 'A' <= c && c <= 'Z' {
        (((c as u32) + 32) as char)
    } else {
        c
    }
}

/// Character-wise ASCII lowercasing of a whole string.
pub open spec fn lower_seq(s: Seq<char>) -> Seq<char> {
    s.map_values(|c: char| lower_char(c))
}

pub open spec fn trim_left_spec(s: Seq<char>) -> Seq<char>
    decreases s.len(),
{
    if s.len() > 0 && is_ws(s[0]) {
        trim_left_spec(s.drop_first())
    } else {
        s
    }
}

pub open spec fn trim_right_spec(s: Seq<char>) -> Seq<char>
    decreases s.len(),
{
    if s.len() > 0 && is_ws(s.last()) {
        trim_right_spec(s.drop_last())
    } else {
        s
    }
}

/// Surrounding-ASCII-whitespace removal.
pub open spec fn trim_spec(s: Seq<char>) -> Seq<char> {
    trim_right_spec(trim_left_spec(s))
}

/// The normal form of an email address: trimmed, then ASCII-lowercased.
pub open spec fn norm_spec(s: Seq<char>) -> Seq<char> {
    lower_seq(trim_spec(s))
}

fn is_ws_exec(c: char) -> (b: bool)
    ensures
        b == is_ws(c),
{
    c == ' ' || c == '\t' || c == '\n' || c == '\r'
}

/// String equality by view.
pub fn str_eq(a: &str, b: &str) -> (r: bool)
    ensures
        r == (a@ == b@),
{
    let sa = String::from_str(a);
    let sb = String::from_str(b);
    sa == sb
}

/// Removes leading and trailing ASCII whitespace.
pub fn trim_str(s: &str) -> (r: String)
    ensures
        r@ == trim_spec(s@),
{
    let n = s.unicode_len();
    proof {
        assert(s@.subrange(0, n as int) =~= s@);
    }
    let mut i: usize = 0;
    while i < n && is_ws_exec(s.get_char(i))
        invariant
            0 <= i <= n,
            n == s@.len(),
            trim_left_spec(s@) == trim_left_spec(s@.subrange(i as int, n as int)),
        decreases n - i,
    {
        proof {
            let cur = s@.subrange(i as int, n as int);
            assert(cur.drop_first() =~= s@.subrange(i as int + 1, n as int));
        }
        i = i + 1;
    }
    proof {
        assert(s@.subrange(0, n as int) =~= s@);
        let cur = s@.subrange(i as int, n as int);
        if i < n {
            assert(!is_ws(cur[0]));
        }
        assert(trim_left_spec(s@) == cur);
    }
    let mut j: usize = n;
    while j > i && is_ws_exec(s.get_char(j - 1))
        invariant
            i <= j <= n,
            n == s@.len(),
            trim_left_spec(s@) == s@.subrange(i as int, n as int),
            i < n ==> !is_ws(s@[i as int]),
            trim_right_spec(s@.subrange(i as int, n as int)) == trim_right_spec(
                s@.subrange(i as int, j as int),
            ),
        decreases j,
    {
        proof {
            let cur = s@.subrange(i as int, j as int);
            assert(cur.drop_last() =~= s@.subrange(i as int, j as int - 1));
            assert(cur.last() == s@[j as int - 1]);
        }
        j = j - 1;
    }
    proof {
        let cur = s@.subrange(i as int, j as int);
        if j > i {
            assert(cur.last() == s@[j as int - 1]);
            assert(!is_ws(cur.last()));
        }
        assert(trim_right_spec(s@.subrange(i as int, j as int)) == cur);
    }
    let piece = s.substring_char(i, j);
    String::from_str(piece)
}

/// Relies on str::to_ascii_lowercase: 'A'..='Z' are mapped to their lowercase
/// counterparts and every other character is returned unchanged.
#[verifier::external_body]
pub(crate) fn ascii_lowercase(s: &str) -> (r: String)
    ensures
        r@ == lower_seq(s@),
{
    s.to_ascii_lowercase()
}

/// Trims surrounding ASCII whitespace, then ASCII-lowercases: the normal form
/// under which email addresses are stored and compared.
pub fn normalize(s: &str) -> (r: String)
    ensures
        r@ == norm_spec(s@),
{
    let t = trim_str(s);
    ascii_lowercase(t.as_str())
}

/// Lowercasing a character twice is the same as lowercasing it once.
pub proof fn lemma_lower_char_idempotent(c: char)
    ensures
        lower_char(lower_char(c)) == lower_char(c),
{
}

/// Lowercasing does not create or destroy whitespace.
pub proof fn lemma_lower_char_ws(c: char)
    ensures
        is_ws(lower_char(c)) == is_ws(c),
{
}

proof fn lemma_trim_left_head(s: Seq<char>)
    ensures
        trim_left_spec(s).len() > 0 ==> !is_ws(trim_left_spec(s)[0]),
        trim_left_spec(s).len() <= s.len(),
    decreases s.len(),
{
    if s.len() > 0 && is_ws(s[0]) {
        lemma_trim_left_head(s.drop_first());
    }
}

proof fn lemma_trim_right_last(s: Seq<char>)
    ensures
        trim_right_spec(s).len() > 0 ==> !is_ws(trim_right_spec(s).last()),
        trim_right_spec(s).len() <= s.len(),
    decreases s.len(),
{
    if s.len() > 0 && is_ws(s.last()) {
        lemma_trim_right_last(s.drop_last());
    }
}

/// A string whose first character is not whitespace left-trims to itself.
proof fn lemma_trim_left_of_no_ws_head(s: Seq<char>)
    requires
        s.len() == 0 || !is_ws(s[0]),
    ensures
        trim_left_spec(s) == s,
{
}

/// Trimming left then right equals trimming right then left.
proof fn lemma_trim_left_right_commute(s: Seq<char>)
    ensures
        trim_right_spec(trim_left_spec(s)) == trim_left_spec(trim_right_spec(s)),
    decreases s.len(),
{
    if s.len() == 0 {
    } else if is_ws(s[0]) && is_ws(s.last()) {
        if s.len() == 1 {
            let e = Seq::<char>::empty();
            assert(s.drop_first() =~= e);
            assert(s.drop_last() =~= e);
            assert(trim_left_spec(e) == e);
            assert(trim_right_spec(e) == e);
        } else {
            let m = s.drop_first();
            let d = s.drop_last();
            assert(m.last() == s.last());
            assert(d[0] == s[0]);
            assert(m.drop_last() =~= d.drop_first());
            lemma_trim_left_right_commute(m);
            lemma_trim_left_right_commute(d);
            lemma_trim_left_right_commute(m.drop_last());
        }
    } else if is_ws(s[0]) {
        let m = s.drop_first();
        assert(m.len() > 0 && m.last() == s.last());
        lemma_trim_left_right_commute(m);
        lemma_trim_right_of_no_ws_last(m);
        lemma_trim_right_of_no_ws_last(s);
    } else if is_ws(s.last()) {
        let d = s.drop_last();
        assert(d.len() > 0 && d[0] == s[0]);
        lemma_trim_left_right_commute(d);
        lemma_trim_left_of_no_ws_head(d);
        lemma_trim_left_of_no_ws_head(s);
    } else {
        lemma_trim_left_of_no_ws_head(s);
        lemma_trim_right_of_no_ws_last(s);
    }
}

/// A string whose last character is not whitespace right-trims to itself.
proof fn lemma_trim_right_of_no_ws_last(s: Seq<char>)
    requires
        s.len() == 0 || !is_ws(s.last()),
    ensures
        trim_right_spec(s) == s,
{
}

/// A string without surrounding whitespace is its own trim.
proof fn lemma_trim_mid(s: Seq<char>)
    requires
        s.len() == 0 || (!is_ws(s[0]) && !is_ws(s.last())),
    ensures
        trim_spec(s) == s,
{
    lemma_trim_left_of_no_ws_head(s);
    lemma_trim_right_of_no_ws_last(s);
}

/// Leading whitespace does not affect the normal form.
pub proof fn lemma_norm_drop_first_ws(s: Seq<char>)
    requires
        s.len() > 0,
        is_ws(s[0]),
    ensures
        norm_spec(s.drop_first()) == norm_spec(s),
{
}

/// Trailing whitespace does not affect the normal form.
pub proof fn lemma_norm_drop_last_ws(s: Seq<char>)
    requires
        s.len() > 0,
        is_ws(s.last()),
    ensures
        norm_spec(s.drop_last()) == norm_spec(s),
{
    lemma_trim_left_right_commute(s);
    lemma_trim_left_right_commute(s.drop_last());
}

/// The normal form is a fixed point: normalizing twice changes nothing.
pub proof fn lemma_norm_idempotent(s: Seq<char>)
    ensures
        norm_spec(norm_spec(s)) == norm_spec(s),
{
    let tl = trim_left_spec(s);
    let t = trim_spec(s);
    let x = lower_seq(t);
    lemma_trim_left_head(s);
    lemma_trim_right_last(tl);
    assert(x.len() == t.len());
    if t.len() > 0 {
        lemma_trim_right_head_of(tl);
        assert(!is_ws(t[0]));
        assert(!is_ws(t.last()));
        assert(x[0] == lower_char(t[0]));
        assert(x.last() == lower_char(t.last()));
        lemma_lower_char_ws(t[0]);
        lemma_lower_char_ws(t.last());
        assert(!is_ws(x[0]));
        assert(!is_ws(x.last()));
    }
    lemma_trim_mid(x);
    assert(lower_seq(x) =~= x) by {
        assert forall|i: int| 0 <= i < x.len() implies #[trigger] lower_seq(x)[i] == x[i] by {
            lemma_lower_char_idempotent(t[i]);
        }
    }
}

/// Right-trimming keeps the first character (when anything is kept).
proof fn lemma_trim_right_head_of(s: Seq<char>)
    ensures
        trim_right_spec(s).len() > 0 ==> trim_right_spec(s)[0] == s[0],
    decreases s.len(),
{
    if s.len() > 0 && is_ws(s.last()) {
        lemma_trim_right_head_of(s.drop_last());
    }
}

/// Two strings whose characters lowercase alike normalize alike: the
/// normal form is ASCII-case-insensitive.
pub proof fn lemma_norm_case_insensitive(a: Seq<char>, b: Seq<char>)
    requires
        a.len() == b.len(),
        forall|i: int| 0 <= i < a.len() ==> lower_char(#[trigger] a[i]) == lower_char(b[i]),
    ensures
        norm_spec(a) == norm_spec(b),
    decreases a.len(),
{
    if a.len() > 0 {
        lemma_lower_char_ws(a[0]);
        lemma_lower_char_ws(b[0]);
        lemma_lower_char_ws(a.last());
        lemma_lower_char_ws(b.last());
        assert(is_ws(a[0]) == is_ws(b[0]));
        assert(is_ws(a.last()) == is_ws(b.last()));
        if is_ws(a[0]) {
            assert(forall|i: int|
                0 <= i < a.drop_first().len() ==> lower_char(#[trigger] a.drop_first()[i])
                    == lower_char(b.drop_first()[i]));
            lemma_norm_case_insensitive(a.drop_first(), b.drop_first());
            lemma_norm_drop_first_ws(a);
            lemma_norm_drop_first_ws(b);
        } else if is_ws(a.last()) {
            assert(forall|i: int|
                0 <= i < a.drop_last().len() ==> lower_char(#[trigger] a.drop_last()[i])
                    == lower_char(b.drop_last()[i]));
            lemma_norm_case_insensitive(a.drop_last(), b.drop_last());
            lemma_norm_drop_last_ws(a);
            lemma_norm_drop_last_ws(b);
        } else {
            lemma_trim_mid(a);
            lemma_trim_mid(b);
            assert(lower_seq(a) =~= lower_seq(b));
        }
    } else {
        assert(a =~= b);
    }
}

} // verus!
