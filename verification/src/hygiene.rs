//! Hygiene: a per-expansion fresh-identifier provider.
//!
//! A context is built from the identifiers visible in the invocation's input
//! text. `fresh` maps a symbolic local name to an identifier that collides
//! with nothing in that text and with no other identifier handed out by the
//! same context, and it is memoized: asking twice for the same symbolic name
//! yields the same identifier, so generated code that mentions a local more
//! than once resolves consistently.

use vstd::prelude::*;
use vstd::string::{StrSliceExecFns, StringExecFns};

verus! {

/// A character that can stand in an identifier.
pub open spec fn is_ident_char(c: char) -> bool {
    ('a' <= c && c <= 'z') || ('A' <= c && c <= 'Z') || ('0' <= c && c <= '9') || c == '_'
}

/// Scanning state: `cur` is the run of identifier characters read so far and
/// not yet closed, `out` the runs already closed; position `i` is next.
pub open spec fn scan_runs(s: Seq<char>, i: int, cur: Seq<char>, out: Seq<Seq<char>>) -> Seq<
    Seq<char>,
>
    decreases s.len() - i,
{
    if i < 0 || i >= s.len() {
        if cur.len() > 0 {
            out.push(cur)
        } else {
            out
        }
    } else if is_ident_char(s[i]) {
        scan_runs(s, i + 1, cur.push(s[i]), out)
    } else if cur.len() > 0 {
        scan_runs(s, i + 1, Seq::empty(), out.push(cur))
    } else {
        scan_runs(s, i + 1, Seq::empty(), out)
    }
}

/// The maximal runs of identifier characters in `s`, in order: every
/// identifier visible in the text is one of them.
pub open spec fn ident_runs(s: Seq<char>) -> Seq<Seq<char>> {
    scan_runs(s, 0, Seq::empty(), Seq::empty())
}

fn ident_char(c: char) -> (b: bool)
    ensures
        b == is_ident_char(c),
{
    ('a' <= c && c <= 'z') || ('A' <= c && c <= 'Z') || ('0' <= c && c <= '9') || c == '_'
}

/// Collects the maximal identifier-character runs of the text, in order.
#[verifier::loop_isolation(false)]
pub fn collect_identifiers(src: &str) -> (r: Vec<String>)
    ensures
        r@.map_values(|t: String| t@) == ident_runs(src@),
{
    let n = src.unicode_len();
    let mut out: Vec<String> = Vec::new();
    let mut run_start: usize = 0;
    let mut i: usize = 0;
    proof {
        assert(src@.subrange(0, 0) =~= Seq::<char>::empty());
        assert(out@.map_values(|t: String| t@) =~= Seq::<Seq<char>>::empty());
    }
    while i < n
        invariant
            run_start <= i <= n,
            ident_runs(src@) == scan_runs(
                src@,
                i as int,
                src@.subrange(run_start as int, i as int),
                out@.map_values(|t: String| t@),
            ),
        decreases n - i,
    {
        let c = src.get_char(i);
        if ident_char(c) {
            proof {
                assert(src@.subrange(run_start as int, i as int).push(src@[i as int]) =~= src@
                    .subrange(run_start as int, i + 1));
            }
        } else {
            if run_start < i {
                let word = src.substring_char(run_start, i);
                let ghost prev = out@.map_values(|t: String| t@);
                out.push(word.to_owned());
                proof {
                    assert(out@.map_values(|t: String| t@) =~= prev.push(
                        src@.subrange(run_start as int, i as int),
                    ));
                }
            }
            run_start = i + 1;
            proof {
                assert(src@.subrange(run_start as int, i + 1) =~= Seq::<char>::empty());
            }
        }
        i = i + 1;
    }
    if run_start < n {
        let word = src.substring_char(run_start, n);
        let ghost prev = out@.map_values(|t: String| t@);
        out.push(word.to_owned());
        proof {
            assert(out@.map_values(|t: String| t@) =~= prev.push(
                src@.subrange(run_start as int, n as int),
            ));
        }
    } else {
        proof {
            assert(src@.subrange(run_start as int, n as int) =~= Seq::<char>::empty());
        }
    }
    out
}

/// `base` followed by `k` underscores.
pub open spec fn padded(base: Seq<char>, k: nat) -> Seq<char>
    decreases k,
{
    if k == 0 {
        base
    } else {
        padded(base, (k - 1) as nat).push('_')
    }
}

/// True when some string of `v` has exactly the characters of `s`.
pub open spec fn contains_chars(v: Seq<Seq<char>>, s: Seq<char>) -> bool {
    exists|i: int| 0 <= i < v.len() && v[i] == s
}

fn contains_string(v: &Vec<String>, s: &String) -> (b: bool)
    ensures
        b == contains_chars(v@.map_values(|t: String| t@), s@),
{
    let n = v.len();
    let mut i: usize = 0;
    while i < n
        invariant
            i <= n == v@.len(),
            forall|j: int| 0 <= j < i ==> v@[j]@ != s@,
        decreases n - i,
    {
        if v[i] == *s {
            proof {
                assert(v@.map_values(|t: String| t@)[i as int] == s@);
            }
            return true;
        }
        i = i + 1;
    }
    false
}

fn max_len(v: &Vec<String>) -> (m: usize)
    ensures
        forall|i: int| 0 <= i < v@.len() ==> (#[trigger] v@[i])@.len() <= m,
{
    let n = v.len();
    let mut m: usize = 0;
    let mut i: usize = 0;
    while i < n
        invariant
            i <= n == v@.len(),
            forall|j: int| 0 <= j < i ==> (#[trigger] v@[j])@.len() <= m,
        decreases n - i,
    {
        let l = v[i].as_str().unicode_len();
        if l > m {
            m = l;
        }
        i = i + 1;
    }
    m
}

/// A per-expansion fresh-identifier provider: `taken` holds the identifiers
/// visible at the call site, and the two parallel memo lists map each
/// symbolic name already requested to the identifier it received.
pub struct HygieneContext {
    pub taken: Vec<String>,
    pub memo_keys: Vec<String>,
    pub memo_vals: Vec<String>,
}

impl HygieneContext {
    /// The identifiers visible at the call site.
    pub open spec fn taken_views(self) -> Seq<Seq<char>> {
        self.taken@.map_values(|t: String| t@)
    }

    /// The symbolic names already requested.
    pub open spec fn key_views(self) -> Seq<Seq<char>> {
        self.memo_keys@.map_values(|t: String| t@)
    }

    /// The identifiers already handed out, in request order.
    pub open spec fn val_views(self) -> Seq<Seq<char>> {
        self.memo_vals@.map_values(|t: String| t@)
    }

    /// Well-formedness: the memo is a mapping (keys are distinct), no two
    /// symbolic names received the same identifier, and nothing handed out
    /// collides with an identifier visible at the call site.
    pub open spec fn wf(self) -> bool {
        &&& self.memo_keys@.len() == self.memo_vals@.len()
        &&& (forall|i: int, j: int|
            0 <= i < j < self.key_views().len() ==> self.key_views()[i] != self.key_views()[j])
        &&& (forall|i: int, j: int|
            0 <= i < j < self.val_views().len() ==> self.val_views()[i] != self.val_views()[j])
        &&& (forall|i: int, t: int|
            0 <= i < self.val_views().len() && 0 <= t < self.taken_views().len()
                ==> self.val_views()[i] != self.taken_views()[t])
    }

    /// True when the symbolic name was already requested.
    pub open spec fn has_key(self, key: Seq<char>) -> bool {
        contains_chars(self.key_views(), key)
    }

    /// Builds a context for one expansion from the identifiers visible at the
    /// call site.
    pub fn new(taken: Vec<String>) -> (r: HygieneContext)
        ensures
            r.wf(),
            r.taken == taken,
            r.key_views().len() == 0,
    {
        HygieneContext { taken, memo_keys: Vec::new(), memo_vals: Vec::new() }
    }

    /// Returns the identifier for a symbolic local name: fresh with respect to
    /// everything visible at the call site and to every identifier this
    /// context handed out for another symbolic name, and stable — the same
    /// symbolic name always resolves to the same identifier.
    #[verifier::loop_isolation(false)]
    pub fn fresh(&mut self, key: &str) -> (r: String)
        requires
            old(self).wf(),
        ensures
            final(self).wf(),
            final(self).taken == old(self).taken,
            !contains_chars(final(self).taken_views(), r@),
            old(self).has_key(key@) ==> *final(self) == *old(self),
            !old(self).has_key(key@) ==> {
                &&& final(self).key_views() == old(self).key_views().push(key@)
                &&& final(self).val_views() == old(self).val_views().push(r@)
                &&& !contains_chars(old(self).val_views(), r@)
                &&& exists|k: nat|
                    {
                        &&& r@ == padded(key@, k)
                        &&& forall|j: nat|
                            j < k ==> contains_chars(old(self).taken_views(), padded(key@, j))
                                || contains_chars(old(self).val_views(), padded(key@, j))
                    }
            },
            final(self).has_key(key@),
            exists|i: int|
                0 <= i < final(self).key_views().len() && final(self).key_views()[i] == key@
                    && final(self).val_views()[i] == r@,
    {
        let k = key.to_owned();
        let klen = self.memo_keys.len();
        let mut idx: usize = 0;
        while idx < klen
            invariant
                idx <= klen,
                forall|j: int| 0 <= j < idx ==> self.key_views()[j] != key@,
            decreases klen - idx,
        {
            if self.memo_keys[idx] == k {
                let r = self.memo_vals[idx].clone();
                proof {
                    assert(self.key_views()[idx as int] == key@);
                    assert(self.val_views()[idx as int] == r@);
                }
                return r;
            }
            idx = idx + 1;
        }
        let b1 = max_len(&self.taken);
        let b2 = max_len(&self.memo_vals);
        let b3 = key.unicode_len();
        let mut bound = if b1 > b2 {
            b1
        } else {
            b2
        };
        if b3 > bound {
            bound = b3;
        }
        let mut cand = key.to_owned();
        let ghost mut pad: nat = 0;
        while contains_string(&self.taken, &cand) || contains_string(&self.memo_vals, &cand)
            invariant
                cand@.len() <= bound + 1,
                cand@ == padded(key@, pad),
                forall|j: nat|
                    j < pad ==> contains_chars(self.taken_views(), padded(key@, j))
                        || contains_chars(self.val_views(), padded(key@, j)),
            decreases bound + 1 - cand@.len(),
        {
            proof {
                reveal_strlit("_");
            }
            cand.append("_");
            proof {
                assert(cand@ =~= padded(key@, pad).push('_'));
                pad = pad + 1;
            }
        }
        let ghost prev_keys = self.key_views();
        let ghost prev_vals = self.val_views();
        self.memo_keys.push(k);
        self.memo_vals.push(cand.clone());
        proof {
            assert(self.key_views() =~= prev_keys.push(key@));
            assert(self.val_views() =~= prev_vals.push(cand@));
            assert(self.key_views()[prev_keys.len() as int] == key@);
        }
        cand
    }
}

} // verus!
