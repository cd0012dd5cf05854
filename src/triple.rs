use vstd::prelude::*;

verus! {

/// Index of the first `'-'` at or after `i`, or the length of `s` if there is none.
pub open spec fn hyphen_from(s: Seq<char>, i: int) -> int
    decreases s.len() - i,
{
    if i < 0 || i >= s.len() {
        s.len() as int
    } else if s[i] == '-' {
        i
    } else {
        hyphen_from(s, i + 1)
    }
}

/// Whether `s` holds no `'-'`.
pub open spec fn hyphen_free(s: Seq<char>) -> bool {
    forall|k: int| 0 <= k < s.len() ==> s[k] != '-'
}

/// The first token of a hyphen-separated text: everything before the first `'-'`.
pub open spec fn head_token(s: Seq<char>) -> Seq<char> {
    s.take(hyphen_from(s, 0))
}

/// What follows the first `'-'`, or `None` where `s` holds no `'-'`.
pub open spec fn rest_tokens(s: Seq<char>) -> Option<Seq<char>> {
    if hyphen_from(s, 0) < s.len() {
        Some(s.skip(hyphen_from(s, 0) + 1))
    } else {
        None
    }
}

/// The three leading tokens of a target identifier `architecture-vendor-abi`;
/// a token is `None` where the text runs out of hyphens before it. Tokens after
/// the third are not read.
pub open spec fn triple_tokens(s: Seq<char>) -> (Seq<char>, Option<Seq<char>>, Option<Seq<char>>) {
    let vendor_on = rest_tokens(s);
    let abi_on = match vendor_on {
        Some(v) => rest_tokens(v),
        None => None,
    };
    (
        head_token(s),
        match vendor_on {
            Some(v) => Some(head_token(v)),
            None => None,
        },
        match abi_on {
            Some(a) => Some(head_token(a)),
            None => None,
        },
    )
}

/// The identifier made of three tokens joined by hyphens.
pub open spec fn join_triple(arch: Seq<char>, vendor: Seq<char>, abi: Seq<char>) -> Seq<char> {
    arch + seq!['-'] + vendor + seq!['-'] + abi
}

proof fn lemma_hyphen_from_bounds(s: Seq<char>, i: int)
    requires
        0 <= i <= s.len(),
    ensures
        i <= hyphen_from(s, i) <= s.len(),
        hyphen_from(s, i) < s.len() ==> s[hyphen_from(s, i)] == '-',
        forall|k: int| i <= k < hyphen_from(s, i) ==> s[k] != '-',
    decreases s.len() - i,
{
    if i < s.len() && s[i] != '-' {
        lemma_hyphen_from_bounds(s, i + 1);
    }
}

/// In `a + "-" + b`, with `a` free of hyphens, the first token is `a` and the
/// rest is `b`.
pub proof fn lemma_split_joined(a: Seq<char>, b: Seq<char>)
    requires
        hyphen_free(a),
    ensures
        head_token(a + seq!['-'] + b) == a,
        rest_tokens(a + seq!['-'] + b) == Some(b),
{
    let s = a + seq!['-'] + b;
    lemma_hyphen_from_bounds(s, 0);
    let h = hyphen_from(s, 0);
    assert(s[a.len() as int] == '-');
    assert(h == a.len()) by {
        if h < a.len() {
            assert(s[h] == a[h]);
        }
    }
    assert(s.take(h) =~= a);
    assert(s.skip(h + 1) =~= b);
}

/// A text free of hyphens is one token, with nothing after it.
pub proof fn lemma_single_token(a: Seq<char>)
    requires
        hyphen_free(a),
    ensures
        head_token(a) == a,
        rest_tokens(a) == None::<Seq<char>>,
{
    lemma_hyphen_from_bounds(a, 0);
    let h = hyphen_from(a, 0);
    assert(h == a.len());
    assert(a.take(h) =~= a);
}

/// The tokens of `arch-vendor-abi`, none of which holds a hyphen, are the three
/// given.
pub proof fn lemma_triple_tokens_of_join(arch: Seq<char>, vendor: Seq<char>, abi: Seq<char>)
    requires
        hyphen_free(arch),
        hyphen_free(vendor),
        hyphen_free(abi),
    ensures
        triple_tokens(join_triple(arch, vendor, abi)) == (arch, Some(vendor), Some(abi)),
{
    let tail = vendor + seq!['-'] + abi;
    assert(join_triple(arch, vendor, abi) =~= arch + seq!['-'] + tail);
    lemma_split_joined(arch, tail);
    lemma_split_joined(vendor, abi);
    lemma_single_token(abi);
}

/// Whether two strings hold the same characters.
pub fn same_text(a: &str, b: &str) -> (r: bool)
    ensures
        r == (a@ == b@),
{
    let n = a.unicode_len();
    let m = b.unicode_len();
    if n != m {
        return false;
    }
    let mut i: usize = 0;
    while i < n
        invariant
            n == a@.len(),
            m == b@.len(),
            n == m,
            i <= n,
            a@.take(i as int) == b@.take(i as int),
        decreases n - i,
    {
        if a.get_char(i) != b.get_char(i) {
            assert(a@[i as int] != b@[i as int]);
            return false;
        }
        assert(a@.take(i + 1) == a@.take(i as int).push(a@[i as int]));
        assert(b@.take(i + 1) == b@.take(i as int).push(b@[i as int]));
        i = i + 1;
    }
    assert(a@.take(n as int) == a@);
    assert(b@.take(n as int) == b@);
    true
}

/// End of the token that starts at `start`: the first `'-'` at or after it.
fn token_end(s: &str, start: usize) -> (e: usize)
    requires
        start <= s@.len(),
    ensures
        e == hyphen_from(s@, start as int),
{
    let n = s.unicode_len();
    let mut i = start;
    while i < n
        invariant
            n == s@.len(),
            start <= i <= n,
            hyphen_from(s@, start as int) == hyphen_from(s@, i as int),
        decreases n - i,
    {
        if s.get_char(i) == '-' {
            return i;
        }
        i = i + 1;
    }
    i
}

/// Splits `s` at its first `'-'`: the first token, and what follows the hyphen
/// if there is one.
pub fn split_token(s: &str) -> (r: (&str, Option<&str>))
    ensures
        r.0@ == head_token(s@),
        match r.1 {
            Some(t) => rest_tokens(s@) == Some(t@),
            None => rest_tokens(s@) is None,
        },
{
    let n = s.unicode_len();
    let e = token_end(s, 0);
    proof {
        lemma_hyphen_from_bounds(s@, 0);
    }
    let head = s.substring_char(0, e);
    if e < n {
        (head, Some(s.substring_char(e + 1, n)))
    } else {
        (head, None)
    }
}

} // verus!
