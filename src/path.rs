//! Paths as the byte strings that name them on a Unix file system, with
//! `/` as the separator. As in std's `Path::components`, repeated separators
//! and `.` components after a separator name nothing.
use vstd::prelude::*;

verus! {

pub open spec fn is_sep(b: u8) -> bool {
    b == 0x2f
}

pub open spec fn is_dot(b: u8) -> bool {
    b == 0x2e
}

/// The length of the first `n` bytes of `p` once trailing separators and
/// trailing `.` components that follow a separator are removed.
pub open spec fn trimmed_len(p: Seq<u8>, n: nat) -> nat
    decreases n,
{
    if n == 0 || n > p.len() {
        n
    } else if is_sep(p[n - 1]) || (n >= 2 && is_dot(p[n - 1]) && is_sep(p[n - 2])) {
        trimmed_len(p, (n - 1) as nat)
    } else {
        n
    }
}

/// Where the last component of the first `n` bytes of `p` begins.
pub open spec fn component_start(p: Seq<u8>, n: nat) -> nat
    decreases n,
{
    if n == 0 || n > p.len() {
        0
    } else if is_sep(p[n - 1]) {
        n
    } else {
        component_start(p, (n - 1) as nat)
    }
}

/// `p` without its trailing separators and the `.` components among them.
pub open spec fn trim_tail(p: Seq<u8>) -> Seq<u8> {
    p.subrange(0, trimmed_len(p, p.len()) as int)
}

/// The last component of `p` that is not a `.` after a separator.
pub open spec fn last_component(p: Seq<u8>) -> Seq<u8> {
    let q = trim_tail(p);
    q.subrange(component_start(q, q.len()) as int, q.len() as int)
}

/// A component that names a file: not empty, not `..`, and not the `.`
/// that can only stand first in a path.
pub open spec fn names_file(c: Seq<u8>) -> bool {
    &&& c.len() > 0
    &&& c != seq![0x2eu8]
    &&& c != seq![0x2eu8, 0x2eu8]
}

/// The file name of `p`, if it has one.
pub open spec fn spec_file_name(p: Seq<u8>) -> Option<Seq<u8>> {
    if names_file(last_component(p)) {
        Some(last_component(p))
    } else {
        None
    }
}

/// `name` joined onto `base`: an absolute `name` replaces `base`, and a
/// separator is put between the two where `base` does not end in one.
pub open spec fn spec_join(base: Seq<u8>, name: Seq<u8>) -> Seq<u8> {
    if name.len() > 0 && is_sep(name[0]) {
        name
    } else if base.len() == 0 || is_sep(base.last()) {
        base + name
    } else {
        base + seq![0x2fu8] + name
    }
}

/// Appends the bytes of `s` to `v`.
pub fn push_bytes(v: &mut Vec<u8>, s: &[u8])
    ensures
        final(v)@ == old(v)@ + s@,
{
    let mut i: usize = 0;
    while i < s.len()
        invariant
            i <= s@.len(),
            v@ == old(v)@ + s@.subrange(0, i as int),
        decreases s@.len() - i,
    {
        v.push(s[i]);
        i = i + 1;
        assert(s@.subrange(0, i as int) == s@.subrange(0, i - 1) + seq![s@[i - 1]]);
    }
    assert(s@.subrange(0, i as int) == s@);
}

/// The length of `p` once its tail is trimmed, as `trimmed_len` states.
pub(crate) fn trimmed_length(p: &[u8]) -> (r: usize)
    ensures
        r == trimmed_len(p@, p@.len()),
        r <= p@.len(),
{
    let mut n: usize = p.len();
    while n > 0 && (p[n - 1] == 0x2f || (n >= 2 && p[n - 1] == 0x2e && p[n - 2] == 0x2f))
        invariant
            n <= p@.len(),
            trimmed_len(p@, p@.len()) == trimmed_len(p@, n as nat),
        decreases n,
    {
        n = n - 1;
    }
    n
}

/// Where the last component of the first `n` bytes of `p` begins.
fn start_of_component(p: &[u8], n: usize) -> (r: usize)
    requires
        n <= p@.len(),
    ensures
        r == component_start(p@, n as nat),
        r <= n,
{
    let mut i: usize = n;
    while i > 0 && p[i - 1] != 0x2f
        invariant
            i <= n <= p@.len(),
            component_start(p@, n as nat) == component_start(p@, i as nat),
        decreases i,
    {
        i = i - 1;
    }
    i
}

/// The file name of `p`: its last component, trailing separators and `.`
/// components after a separator ignored, unless that component is empty,
/// `.` or `..`.
pub fn file_name(p: &[u8]) -> (r: Option<Vec<u8>>)
    ensures
        r matches Some(v) ==> spec_file_name(p@) == Some(v@),
        r is None ==> spec_file_name(p@) is None,
{
    let end = trimmed_length(p);
    let start = start_of_component(p, end);
    proof {
        let q = trim_tail(p@);
        assert(q.len() == end);
        assert forall|k: nat| k <= end implies component_start(q, k) == component_start(p@, k) by {
            lemma_component_start_agrees(p@, q, k);
        }
    }
    let mut c: Vec<u8> = Vec::new();
    let mut i: usize = start;
    while i < end
        invariant
            start <= i <= end <= p@.len(),
            c@ == p@.subrange(start as int, i as int),
        decreases end - i,
    {
        c.push(p[i]);
        i = i + 1;
        assert(c@ == p@.subrange(start as int, i as int));
    }
    assert(last_component(p@) == c@);
    let n = c.len();
    if n == 0 || (n == 1 && c[0] == 0x2e) || (n == 2 && c[0] == 0x2e && c[1] == 0x2e) {
        proof {
            if n == 1 {
                assert(c@ == seq![0x2eu8]);
            }
            if n == 2 {
                assert(c@ == seq![0x2eu8, 0x2eu8]);
            }
        }
        None
    } else {
        proof {
            if c@ == seq![0x2eu8] {
                assert(c@[0] == 0x2e);
            }
            if c@ == seq![0x2eu8, 0x2eu8] {
                assert(c@[0] == 0x2e && c@[1] == 0x2e);
            }
        }
        Some(c)
    }
}

proof fn lemma_component_start_agrees(p: Seq<u8>, q: Seq<u8>, k: nat)
    requires
        q.len() <= p.len(),
        q == p.subrange(0, q.len() as int),
        k <= q.len(),
    ensures
        component_start(q, k) == component_start(p, k),
    decreases k,
{
    if k > 0 {
        assert(q[k - 1] == p[k - 1]);
        lemma_component_start_agrees(p, q, (k - 1) as nat);
    }
}

/// `name` joined onto `base`, as `spec_join` states.
pub fn join(base: &[u8], name: &[u8]) -> (r: Vec<u8>)
    ensures
        r@ == spec_join(base@, name@),
{
    if name.len() > 0 && name[0] == 0x2f {
        let mut r: Vec<u8> = Vec::new();
        push_bytes(&mut r, name);
        assert(r@ == name@);
        r
    } else {
        let mut r: Vec<u8> = Vec::new();
        push_bytes(&mut r, base);
        if base.len() > 0 && base[base.len() - 1] != 0x2f {
            r.push(0x2f);
        }
        push_bytes(&mut r, name);
        assert(r@ == spec_join(base@, name@));
        r
    }
}

} // verus!
