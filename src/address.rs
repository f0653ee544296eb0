//! Canonical host strings and `host:port` socket targets.
use vstd::prelude::*;

verus! {

pub open spec fn is_bracket(c: char) -> bool {
    c == '[' || c == ']'
}

/// `s` with every leading bracket character removed.
pub open spec fn strip_front(s: Seq<char>) -> Seq<char>
    decreases s.len(),
{
    if s.len() > 0 && is_bracket(s[0]) {
        strip_front(s.drop_first())
    } else {
        s
    }
}

/// `s` with every trailing bracket character removed.
pub open spec fn strip_back(s: Seq<char>) -> Seq<char>
    decreases s.len(),
{
    if s.len() > 0 && is_bracket(s.last()) {
        strip_back(s.drop_last())
    } else {
        s
    }
}

/// `s` with all bracket characters removed from both ends, whatever the nesting.
pub open spec fn strip_brackets(s: Seq<char>) -> Seq<char> {
    strip_back(strip_front(s))
}

/// The canonical form of a host: an IPv6 literal (anything holding a colon once
/// the brackets are stripped) in exactly one bracket pair, anything else bare.
pub open spec fn normalized_host(s: Seq<char>) -> Seq<char> {
    let t = strip_brackets(s);
    if t.contains(':') {
        seq!['['] + t + seq![']']
    } else {
        t
    }
}

pub open spec fn digit_char(d: nat) -> char {
    if d == 0 { '0' }
    else if d == 1 { '1' }
    else if d == 2 { '2' }
    else if d == 3 { '3' }
    else if d == 4 { '4' }
    else if d == 5 { '5' }
    else if d == 6 { '6' }
    else if d == 7 { '7' }
    else if d == 8 { '8' }
    else { '9' }
}

/// Decimal rendering of a natural number, without leading zeros.
pub open spec fn decimal(n: nat) -> Seq<char>
    decreases n,
{
    if n < 10 {
        seq![digit_char(n)]
    } else {
        decimal(n / 10) + seq![digit_char(n % 10)]
    }
}

/// The socket target `host:port` for a host in any bracket form.
pub open spec fn socket_address(host: Seq<char>, port: nat) -> Seq<char> {
    normalized_host(host) + seq![':'] + decimal(port)
}

proof fn lemma_strip_front_shape(s: Seq<char>)
    ensures
        strip_front(s).len() <= s.len(),
        strip_front(s) =~= s.subrange(s.len() - strip_front(s).len(), s.len() as int),
        strip_front(s).len() == 0 || !is_bracket(strip_front(s)[0]),
    decreases s.len(),
{
    if s.len() > 0 && is_bracket(s[0]) {
        lemma_strip_front_shape(s.drop_first());
    }
}

proof fn lemma_strip_back_shape(s: Seq<char>)
    ensures
        strip_back(s).len() <= s.len(),
        strip_back(s) =~= s.subrange(0, strip_back(s).len() as int),
        strip_back(s).len() == 0 || !is_bracket(strip_back(s).last()),
    decreases s.len(),
{
    if s.len() > 0 && is_bracket(s.last()) {
        lemma_strip_back_shape(s.drop_last());
    }
}

/// A stripped string neither starts nor ends with a bracket.
proof fn lemma_stripped_ends(s: Seq<char>)
    ensures
        strip_brackets(s).len() == 0 || (!is_bracket(strip_brackets(s)[0]) && !is_bracket(
            strip_brackets(s).last(),
        )),
{
    let f = strip_front(s);
    lemma_strip_front_shape(s);
    lemma_strip_back_shape(f);
    let b = strip_back(f);
    if b.len() > 0 {
        assert(b[0] == f[0]);
    }
}

/// Stripping a string whose ends hold no bracket changes nothing.
proof fn lemma_strip_clean(t: Seq<char>)
    requires
        t.len() == 0 || (!is_bracket(t[0]) && !is_bracket(t.last())),
    ensures
        strip_brackets(t) == t,
{
}

/// Stripping `[t]` gives back `t`, where `t` is non-empty and has no bracket at its ends.
proof fn lemma_strip_wrapped(t: Seq<char>)
    requires
        t.len() > 0,
        !is_bracket(t[0]),
        !is_bracket(t.last()),
    ensures
        strip_brackets(seq!['['] + t + seq![']']) == t,
{
    let w = seq!['['] + t + seq![']'];
    let u = t + seq![']'];
    assert(w.drop_first() =~= u);
    assert(strip_front(w) == strip_front(u));
    assert(strip_front(u) == u);
    assert(u.drop_last() =~= t);
    assert(strip_back(u) == strip_back(t));
}

/// Normalizing a normalized host changes nothing, whatever brackets the input had.
pub proof fn lemma_normalize_idempotent(s: Seq<char>)
    ensures
        normalized_host(normalized_host(s)) == normalized_host(s),
{
    let t = strip_brackets(s);
    lemma_stripped_ends(s);
    if t.contains(':') {
        lemma_strip_wrapped(t);
    } else {
        lemma_strip_clean(t);
    }
}

fn is_bracket_char(c: char) -> (r: bool)
    ensures
        r == is_bracket(c),
{
    c == '[' || c == ']'
}

/// Canonicalizes a host string: strips every bracket at either end, then wraps an
/// IPv6 literal (one holding a colon) in a single bracket pair.
pub fn normalize_target(input: &str) -> (r: String)
    ensures
        r@ == normalized_host(input@),
{
    let n = input.unicode_len();
    let mut lo: usize = 0;
    assert(input@.subrange(0, n as int) =~= input@);
    while lo < n && is_bracket_char(input.get_char(lo))
        invariant
            n == input@.len(),
            lo <= n,
            strip_front(input@) == strip_front(input@.subrange(lo as int, n as int)),
        decreases n - lo,
    {
        assert(input@.subrange(lo as int, n as int).drop_first() =~= input@.subrange(
            lo + 1,
            n as int,
        ));
        lo = lo + 1;
    }
    let mut hi: usize = n;
    while hi > lo && is_bracket_char(input.get_char(hi - 1))
        invariant
            n == input@.len(),
            lo <= hi <= n,
            strip_back(input@.subrange(lo as int, n as int)) == strip_back(
                input@.subrange(lo as int, hi as int),
            ),
        decreases hi,
    {
        assert(input@.subrange(lo as int, hi as int).drop_last() =~= input@.subrange(
            lo as int,
            hi - 1,
        ));
        hi = hi - 1;
    }
    let core = input.substring_char(lo, hi);
    assert(core@ == strip_brackets(input@));
    let mut has_colon = false;
    let mut i: usize = lo;
    while i < hi
        invariant
            n == input@.len(),
            lo <= i <= hi <= n,
            core@ == input@.subrange(lo as int, hi as int),
            has_colon == (exists|j: int| 0 <= j < i - lo && core@[j] == ':'),
        decreases hi - i,
    {
        if input.get_char(i) == ':' {
            assert(core@[i - lo] == ':');
            has_colon = true;
        }
        i = i + 1;
    }
    if has_colon {
        let mut r = String::from_str("[");
        r.append(core);
        r.append("]");
        proof {
            reveal_strlit("[");
            reveal_strlit("]");
            assert(r@ =~= seq!['['] + core@ + seq![']']);
        }
        r
    } else {
        proof {
            assert(!core@.contains(':'));
        }
        String::from_str(core)
    }
}

fn digit_str(d: u16) -> (r: &'static str)
    requires
        d < 10,
    ensures
        r@ == seq![digit_char(d as nat)],
{
    proof {
        reveal_strlit("0");
        reveal_strlit("1");
        reveal_strlit("2");
        reveal_strlit("3");
        reveal_strlit("4");
        reveal_strlit("5");
        reveal_strlit("6");
        reveal_strlit("7");
        reveal_strlit("8");
        reveal_strlit("9");
    }
    let r = if d == 0 { "0" }
    else if d == 1 { "1" }
    else if d == 2 { "2" }
    else if d == 3 { "3" }
    else if d == 4 { "4" }
    else if d == 5 { "5" }
    else if d == 6 { "6" }
    else if d == 7 { "7" }
    else if d == 8 { "8" }
    else { "9" };
    assert(r@ =~= seq![digit_char(d as nat)]);
    r
}

/// Decimal text of a port number.
pub fn port_text(n: u16) -> (r: String)
    ensures
        r@ == decimal(n as nat),
    decreases n,
{
    if n < 10 {
        String::from_str(digit_str(n))
    } else {
        let mut r = port_text(n / 10);
        r.append(digit_str(n % 10));
        r
    }
}

/// The socket target `host:port`, with the host normalized first.
pub fn format_socket_address(ip: &str, port: u16) -> (r: String)
    ensures
        r@ == socket_address(ip@, port as nat),
{
    let mut r = normalize_target(ip);
    r.append(":");
    let p = port_text(port);
    r.append(p.as_str());
    proof {
        reveal_strlit(":");
    }
    r
}

} // verus!
