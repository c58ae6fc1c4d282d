use vstd::prelude::*;
use vstd::string::StrSliceExecFns;
use vstd::string::StringExecFns;

verus! {

/// The canonical full path of a child named `name` under `parent`, always
/// joined with a forward slash, whatever the host's conventions are.
pub open spec fn joined(parent: Seq<char>, name: Seq<char>) -> Seq<char> {
    parent + "/"@ + name
}

/// Builds `parent/name`.
pub fn join_path(parent: &str, name: &str) -> (r: String)
    ensures
        r@ == joined(parent@, name@),
{
    let mut s: String = parent.to_owned();
    s.append("/");
    s.append(name);
    s
}

/// Whether two string slices hold the same characters.
pub fn str_eq(a: &str, b: &str) -> (r: bool)
    ensures
        r == (a@ == b@),
{
    let sa: String = a.to_owned();
    let sb: String = b.to_owned();
    sa == sb
}

/// The provider namespace prefix, which is also the canonical path of the
/// synthetic root object.
pub open spec fn root_path() -> Seq<char> {
    "gdrive:"@
}

/// The root path as an owned string.
pub fn root_path_string() -> (r: String)
    ensures
        r@ == root_path(),
{
    "gdrive:".to_owned()
}

/// Whether `s` addresses the remote store: it starts with the provider prefix.
pub open spec fn is_remote(s: Seq<char>) -> bool {
    root_path().is_prefix_of(s)
}

pub fn is_remote_path(s: &str) -> (r: bool)
    ensures
        r == is_remote(s@),
{
    proof {
        reveal_strlit("gdrive:");
    }
    let n = s.unicode_len();
    if n < 7 {
        return false;
    }
    let head = s.substring_char(0, 7);
    str_eq(head, "gdrive:")
}

/// The final path segment: the characters after the last `/`; the whole
/// string when it holds none; empty when the string ends in `/`.
pub open spec fn basename_of(s: Seq<char>) -> Seq<char>
    decreases s.len(),
{
    if s.len() == 0 {
        Seq::empty()
    } else if s.last() == '/' {
        Seq::empty()
    } else {
        basename_of(s.drop_last()).push(s.last())
    }
}

proof fn lemma_basename_is_suffix(s: Seq<char>, i: int)
    requires
        0 <= i <= s.len(),
        forall|j: int| i <= j < s.len() ==> s[j] != '/',
        i > 0 ==> s[i - 1] == '/',
    ensures
        basename_of(s) == s.subrange(i, s.len() as int),
    decreases s.len(),
{
    if i == s.len() {
        assert(s.subrange(i, s.len() as int) =~= Seq::empty());
    } else {
        lemma_basename_is_suffix(s.drop_last(), i);
        assert(s.subrange(i, s.len() as int) =~= s.drop_last().subrange(
            i,
            s.len() - 1,
        ).push(s.last()));
    }
}

/// Extracts the final path segment: what uploads and created directories are
/// named after.
pub fn basename(s: &str) -> (r: String)
    ensures
        r@ == basename_of(s@),
{
    let n = s.unicode_len();
    let mut i: usize = n;
    loop
        invariant_except_break
            i <= n,
            n == s@.len(),
            forall|j: int| i <= j < s@.len() ==> s@[j] != '/',
        ensures
            i <= n,
            n == s@.len(),
            forall|j: int| i <= j < s@.len() ==> s@[j] != '/',
            i == 0 || s@[i as int - 1] == '/',
        decreases i,
    {
        if i == 0 {
            break;
        }
        let c = s.get_char(i - 1);
        if c == '/' {
            break;
        }
        i = i - 1;
    }
    proof {
        lemma_basename_is_suffix(s@, i as int);
    }
    let tail = s.substring_char(i, n);
    tail.to_owned()
}

/// Whether `c` is a decimal digit.
pub open spec fn is_digit(c: char) -> bool {
    48 <= c as int <= 57
}

/// The numeric value of a digit character.
pub open spec fn digit_val(c: char) -> nat {
    if is_digit(c) {
        (c as int - 48) as nat
    } else {
        0
    }
}

/// Whether `s` is a non-empty run of decimal digits.
pub open spec fn is_dec_string(s: Seq<char>) -> bool {
    s.len() > 0 && (forall|i: int| 0 <= i < s.len() ==> is_digit(s[i]))
}

/// The number that `s` writes in decimal.
pub open spec fn dec_value(s: Seq<char>) -> nat
    decreases s.len(),
{
    if s.len() == 0 {
        0
    } else {
        dec_value(s.drop_last()) * 10 + digit_val(s.last())
    }
}

proof fn lemma_dec_value_prefix_le(s: Seq<char>, i: int)
    requires
        0 <= i <= s.len(),
    ensures
        dec_value(s.subrange(0, i)) <= dec_value(s),
    decreases s.len(),
{
    if i == s.len() {
        assert(s.subrange(0, i) =~= s);
    } else {
        lemma_dec_value_prefix_le(s.drop_last(), i);
        assert(s.drop_last().subrange(0, i) =~= s.subrange(0, i));
        assert(dec_value(s.drop_last()) * 10 >= dec_value(s.drop_last())) by (nonlinear_arith);
    }
}

/// Reads a base-ten `u64`, as the remote store's size fields are written.
/// Digits only; `None` on anything else, and on a value above `u64::MAX`.
pub fn parse_u64(s: &str) -> (r: Option<u64>)
    ensures
        r matches Some(v) ==> is_dec_string(s@) && v == dec_value(s@),
        r is None ==> !is_dec_string(s@) || dec_value(s@) > u64::MAX,
{
    let n = s.unicode_len();
    if n == 0 {
        return None;
    }
    let mut v: u64 = 0;
    let mut i: usize = 0;
    while i < n
        invariant
            i <= n,
            n == s@.len(),
            forall|j: int| 0 <= j < i ==> is_digit(s@[j]),
            v == dec_value(s@.subrange(0, i as int)),
        decreases n - i,
    {
        let c = s.get_char(i);
        let u = c as u32;
        if u < 48 || u > 57 {
            proof {
                assert(!is_digit(s@[i as int]));
            }
            return None;
        }
        let d: u64 = (u - 48) as u64;
        proof {
            assert(s@.subrange(0, i as int + 1).drop_last() =~= s@.subrange(0, i as int));
            assert(s@.subrange(0, i as int + 1).last() == s@[i as int]);
        }
        let w = match v.checked_mul(10) {
            Some(w) => w,
            None => {
                proof {
                    lemma_dec_value_prefix_le(s@, i as int + 1);
                }
                return None;
            },
        };
        let w2 = match w.checked_add(d) {
            Some(w2) => w2,
            None => {
                proof {
                    lemma_dec_value_prefix_le(s@, i as int + 1);
                }
                return None;
            },
        };
        v = w2;
        i = i + 1;
    }
    proof {
        assert(s@.subrange(0, n as int) =~= s@);
    }
    Some(v)
}

/// `a + b`, capped at `u64::MAX`: the aggregator never panics on a tree whose
/// sizes do not fit.
pub open spec fn sat_add(a: u64, b: u64) -> u64 {
    if a + b <= u64::MAX {
        (a + b) as u64
    } else {
        u64::MAX
    }
}

pub fn add_saturating(a: u64, b: u64) -> (r: u64)
    ensures
        r == sat_add(a, b),
{
    if a <= u64::MAX - b {
        a + b
    } else {
        u64::MAX
    }
}

} // verus!
