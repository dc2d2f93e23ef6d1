use vstd::prelude::*;
use vstd::std_specs::iter::IteratorSpec;
use vstd::string::{axiom_spec_iter, next_postcondition};

verus! {

/// The characters that trimming removes: those of Unicode's `White_Space`
/// property, as `char::is_whitespace` has them.
pub open spec fn is_space(c: char) -> bool {
    let u = c as u32;
    (0x09 <= u && u <= 0x0D) || u == 0x20 || u == 0x85 || u == 0xA0 || u == 0x1680
        || (0x2000 <= u && u <= 0x200A) || u == 0x2028 || u == 0x2029 || u == 0x202F
        || u == 0x205F || u == 0x3000
}

/// `s` without its leading spaces.
pub open spec fn trim_start(s: Seq<char>) -> Seq<char>
    decreases s.len(),
{
    if s.len() > 0 && is_space(s[0]) {
        trim_start(s.drop_first())
    } else {
        s
    }
}

/// `s` without its trailing spaces.
pub open spec fn trim_end(s: Seq<char>) -> Seq<char>
    decreases s.len(),
{
    if s.len() > 0 && is_space(s.last()) {
        trim_end(s.drop_last())
    } else {
        s
    }
}

/// `s` without its leading and trailing spaces.
pub open spec fn trim(s: Seq<char>) -> Seq<char> {
    trim_end(trim_start(s))
}

/// The scheme prefix that may stand before a credential: `Bearer `.
pub open spec fn bearer() -> Seq<char> {
    seq!['B', 'e', 'a', 'r', 'e', 'r', ' ']
}

/// The credential that an `Authorization` header value presents: the value
/// trimmed, and, where it then starts with `Bearer `, the rest trimmed again.
pub open spec fn credential(h: Seq<char>) -> Seq<char> {
    let t = trim(h);
    if t.len() >= 7 && t.subrange(0, 7) == bearer() {
        trim(t.subrange(7, t.len() as int))
    } else {
        t
    }
}

/// The token that a configured value stands for: the value trimmed, and none
/// where nothing is left, which turns authentication off.
pub open spec fn token_of(cfg: Option<Seq<char>>) -> Option<Seq<char>> {
    match cfg {
        None => None,
        Some(s) => if trim(s).len() == 0 {
            None
        } else {
            Some(trim(s))
        },
    }
}

/// Whether a request with header value `header` (none where it has no
/// usable `Authorization` header) passes when the token is `expected`.
pub open spec fn accepts(expected: Option<Seq<char>>, header: Option<Seq<char>>) -> bool {
    match expected {
        None => true,
        Some(t) => match header {
            None => false,
            Some(h) => credential(h) == t,
        },
    }
}

/// The characters of `s`, in order.
pub fn chars_of(s: &str) -> (r: Vec<char>)
    ensures
        r@ == s@,
{
    broadcast use axiom_spec_iter, next_postcondition;

    let mut it = s.chars();
    let mut r: Vec<char> = Vec::new();
    loop
        invariant
            r@.add(it.remaining()) == s@,
            it.decrease() is Some,
        decreases it.decrease()->0,
    {
        let ghost before = it.remaining();
        match it.next() {
            Some(c) => {
                assert(r@.push(c).add(it.remaining()) =~= r@.add(before));
                r.push(c);
            },
            None => {
                assert(r@ =~= s@);
                return r;
            },
        }
    }
}

/// The characters of `s` from `from` on, trimmed.
pub fn trim_from(s: &[char], from: usize) -> (r: Vec<char>)
    requires
        from <= s@.len(),
    ensures
        r@ == trim(s@.subrange(from as int, s@.len() as int)),
{
    let n: usize = s.len();
    let mut i: usize = from;
    while i < n && is_space_char(s[i])
        invariant
            from <= i <= n,
            n == s@.len(),
            trim_start(s@.subrange(from as int, n as int)) == trim_start(s@.subrange(i as int, n as int)),
        decreases n - i,
    {
        assert(s@.subrange(i as int, n as int).drop_first() =~= s@.subrange(i + 1, n as int));
        i = i + 1;
    }
    assert(trim_start(s@.subrange(i as int, n as int)) == s@.subrange(i as int, n as int));
    let mut j: usize = n;
    while j > i && is_space_char(s[j - 1])
        invariant
            i <= j <= n,
            n == s@.len(),
            trim_end(s@.subrange(i as int, n as int)) == trim_end(s@.subrange(i as int, j as int)),
        decreases j - i,
    {
        assert(s@.subrange(i as int, j as int).drop_last() =~= s@.subrange(i as int, j - 1));
        j = j - 1;
    }
    assert(trim_end(s@.subrange(i as int, j as int)) == s@.subrange(i as int, j as int));
    let mut r: Vec<char> = Vec::new();
    let mut k: usize = i;
    while k < j
        invariant
            i <= k <= j <= n,
            n == s@.len(),
            r@ == s@.subrange(i as int, k as int),
        decreases j - k,
    {
        r.push(s[k]);
        assert(r@ =~= s@.subrange(i as int, k + 1));
        k = k + 1;
    }
    r
}

/// Whether `c` is one of the characters that trimming removes.
pub fn is_space_char(c: char) -> (r: bool)
    ensures
        r == is_space(c),
{
    let u = c as u32;
    (0x09 <= u && u <= 0x0D) || u == 0x20 || u == 0x85 || u == 0xA0 || u == 0x1680
        || (0x2000 <= u && u <= 0x200A) || u == 0x2028 || u == 0x2029 || u == 0x202F
        || u == 0x205F || u == 0x3000
}

/// Whether the two character strings are equal.
pub fn chars_equal(a: &[char], b: &[char]) -> (r: bool)
    ensures
        r == (a@ == b@),
{
    if a.len() != b.len() {
        return false;
    }
    let n: usize = a.len();
    let mut i: usize = 0;
    while i < n
        invariant
            n == a@.len(),
            n == b@.len(),
            i <= n,
            forall|k: int| 0 <= k < i ==> a@[k] == b@[k],
        decreases n - i,
    {
        if a[i] != b[i] {
            return false;
        }
        i = i + 1;
    }
    assert(a@ =~= b@);
    true
}

/// Whether `t` starts with `Bearer `.
fn starts_with_bearer(t: &[char]) -> (r: bool)
    ensures
        r == (t@.len() >= 7 && t@.subrange(0, 7) == bearer()),
{
    let p: Vec<char> = vec!['B', 'e', 'a', 'r', 'e', 'r', ' '];
    assert(p@ =~= bearer());
    if t.len() < 7 {
        return false;
    }
    let mut i: usize = 0;
    while i < 7
        invariant
            i <= 7,
            7 <= t@.len(),
            p@ == bearer(),
            forall|k: int| 0 <= k < i ==> t@[k] == p@[k],
        decreases 7 - i,
    {
        if t[i] != p[i] {
            assert(t@.subrange(0, 7)[i as int] != bearer()[i as int]);
            return false;
        }
        i = i + 1;
    }
    assert(t@.subrange(0, 7) =~= bearer());
    true
}

/// The credential presented by the header value `h`.
pub fn credential_of(h: &str) -> (r: Vec<char>)
    ensures
        r@ == credential(h@),
{
    let cs = chars_of(h);
    assert(cs@.subrange(0, cs@.len() as int) =~= cs@);
    let t = trim_from(cs.as_slice(), 0);
    if starts_with_bearer(t.as_slice()) {
        trim_from(t.as_slice(), 7)
    } else {
        t
    }
}

/// The token that the configured value `cfg` stands for.
pub fn token_from_config(cfg: Option<&str>) -> (r: Option<Vec<char>>)
    ensures
        r matches Some(v) ==> token_of(
            match cfg {
                Some(c) => Some(c@),
                None => None,
            },
        ) == Some(v@),
        r is None ==> token_of(
            match cfg {
                Some(c) => Some(c@),
                None => None,
            },
        ) is None,
{
    match cfg {
        None => None,
        Some(c) => {
            let cs = chars_of(c);
            assert(cs@.subrange(0, cs@.len() as int) =~= cs@);
            let t = trim_from(cs.as_slice(), 0);
            if t.len() == 0 {
                None
            } else {
                Some(t)
            }
        },
    }
}

/// Whether a request whose `Authorization` header value is `header` passes
/// when the configured token is `expected`.
pub fn authorize(expected: Option<&[char]>, header: Option<&str>) -> (r: bool)
    ensures
        r == accepts(
            match expected {
                Some(t) => Some(t@),
                None => None,
            },
            match header {
                Some(h) => Some(h@),
                None => None,
            },
        ),
{
    match expected {
        None => true,
        Some(t) => match header {
            None => false,
            Some(h) => {
                let c = credential_of(h);
                chars_equal(c.as_slice(), t)
            },
        },
    }
}

/// A string that starts and ends with a character that is no space is its
/// own trim.
pub proof fn lemma_trim_keeps(s: Seq<char>)
    requires
        s.len() > 0,
        !is_space(s[0]),
        !is_space(s.last()),
    ensures
        trim(s) == s,
{
    reveal_with_fuel(trim_start, 1);
    reveal_with_fuel(trim_end, 1);
}

/// The scheme prefix `Basic `, which this service does not take.
pub open spec fn basic() -> Seq<char> {
    seq!['B', 'a', 's', 'i', 'c', ' ']
}

/// With a token `t` configured (non-empty, no space at either end, not itself
/// starting with `Bearer `): a request without the header is refused, as is
/// every header whose credential differs from `t` and a `Basic ` scheme in
/// front of `t`; the bare token, the token after `Bearer `, and the token
/// padded by spaces pass.
pub proof fn lemma_token_gate(t: Seq<char>, h: Seq<char>)
    requires
        t.len() > 0,
        !is_space(t[0]),
        !is_space(t.last()),
        !(t.len() >= 7 && t.subrange(0, 7) == bearer()),
    ensures
        !accepts(Some(t), None),
        credential(h) != t ==> !accepts(Some(t), Some(h)),
        accepts(Some(t), Some(t)),
        accepts(Some(t), Some(bearer().add(t))),
        accepts(Some(t), Some(seq![' '].add(t).add(seq![' ']))),
        !accepts(Some(t), Some(basic().add(t))),
{
    lemma_trim_keeps(t);

    let b = bearer().add(t);
    assert(b[0] == 'B');
    assert(b.last() == t.last());
    lemma_trim_keeps(b);
    assert(b.subrange(0, 7) =~= bearer());
    assert(b.subrange(7, b.len() as int) =~= t);

    let w = seq![' '].add(t).add(seq![' ']);
    assert(w.drop_first() =~= t.add(seq![' ']));
    reveal_with_fuel(trim_start, 2);
    assert(trim_start(t.add(seq![' '])) == t.add(seq![' ']));
    assert(trim_start(w) == t.add(seq![' ']));
    assert(t.add(seq![' ']).drop_last() =~= t);
    reveal_with_fuel(trim_end, 2);
    assert(trim_end(t.add(seq![' '])) == trim_end(t));
    assert(trim(w) == t);

    let k = basic().add(t);
    assert(k[0] == 'B');
    assert(k.last() == t.last());
    lemma_trim_keeps(k);
    assert(k[1] != bearer()[1]);
    assert(k.len() >= 7 ==> k.subrange(0, 7)[1] != bearer()[1]);
    assert(credential(k) == k);
    assert(k.len() != t.len());
}

/// With no token configured, every request passes, with or without a header.
pub proof fn lemma_no_token_open(header: Option<Seq<char>>)
    ensures
        accepts(None, header),
{
}

} // verus!
