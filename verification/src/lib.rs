//! A small greeting library: it validates a user-supplied name and formats a
//! greeting for it. A name is rejected when it is empty after trimming
//! leading and trailing whitespace, or when its trimmed form is longer than
//! `MAX_NAME_CHARS` characters; otherwise the trimmed name is embedded in a
//! fixed greeting sentence.

use vstd::prelude::*;

verus! {

/// Longest accepted name, in characters, after trimming.
pub const MAX_NAME_CHARS: usize = 100;

/// Whitespace, by Unicode's `White_Space` property: the characters that
/// trimming removes from either end of a name.
pub open spec fn is_space(c: char) -> bool {
    let u = c as u32;
    ||| u == 0x20
    ||| (0x09 <= u && u <= 0x0D)
    ||| u == 0x85
    ||| u == 0xA0
    ||| u == 0x1680
    ||| (0x2000 <= u && u <= 0x200A)
    ||| u == 0x2028
    ||| u == 0x2029
    ||| u == 0x202F
    ||| u == 0x205F
    ||| u == 0x3000
}

/// Runtime test for `is_space`.
pub fn is_space_char(c: char) -> (r: bool)
    ensures
        r == is_space(c),
{
    let u = c as u32;
    u == 0x20 || (0x09 <= u && u <= 0x0D) || u == 0x85 || u == 0xA0 || u == 0x1680 || (0x2000 <= u
        && u <= 0x200A) || u == 0x2028 || u == 0x2029 || u == 0x202F || u == 0x205F || u == 0x3000
}

/// `s` without its leading whitespace.
pub open spec fn trim_start(s: Seq<char>) -> Seq<char>
    decreases s.len(),
{
    if s.len() > 0 && is_space(s[0]) {
        trim_start(s.subrange(1, s.len() as int))
    } else {
        s
    }
}

/// `s` without its trailing whitespace.
pub open spec fn trim_end(s: Seq<char>) -> Seq<char>
    decreases s.len(),
{
    if s.len() > 0 && is_space(s[s.len() - 1]) {
        trim_end(s.subrange(0, s.len() - 1))
    } else {
        s
    }
}

/// `s` without leading and trailing whitespace.
pub open spec fn trimmed(s: Seq<char>) -> Seq<char> {
    trim_end(trim_start(s))
}

/// When the first `k` characters of `s` are whitespace and the `k`-th (if
/// any) is not, trimming the start keeps exactly the tail from `k` on.
pub proof fn lemma_trim_start_subrange(s: Seq<char>, k: int)
    requires
        0 <= k <= s.len(),
        forall|i: int| 0 <= i < k ==> is_space(s[i]),
        k < s.len() ==> !is_space(s[k]),
    ensures
        trim_start(s) == s.subrange(k, s.len() as int),
    decreases k,
{
    if k == 0 {
        assert(s.subrange(0, s.len() as int) =~= s);
    } else {
        let tail = s.subrange(1, s.len() as int);
        lemma_trim_start_subrange(tail, k - 1);
        assert(tail.subrange(k - 1, tail.len() as int) =~= s.subrange(k, s.len() as int));
    }
}

/// When all characters of `s` from `k` on are whitespace and the one before
/// `k` (if any) is not, trimming the end keeps exactly the first `k`.
pub proof fn lemma_trim_end_subrange(s: Seq<char>, k: int)
    requires
        0 <= k <= s.len(),
        forall|i: int| k <= i < s.len() ==> is_space(s[i]),
        k > 0 ==> !is_space(s[k - 1]),
    ensures
        trim_end(s) == s.subrange(0, k),
    decreases s.len() - k,
{
    if k == s.len() {
        if s.len() > 0 && is_space(s[s.len() - 1]) {
            assert(!is_space(s[k - 1]));
        }
        assert(s.subrange(0, s.len() as int) =~= s);
    } else {
        let head = s.subrange(0, s.len() - 1);
        lemma_trim_end_subrange(head, k);
        assert(head.subrange(0, k) =~= s.subrange(0, k));
    }
}

/// The trimmed form of `s`, read off from the positions `lo` and `hi` that a
/// scan from each end finds: it is exactly `s[lo..hi]`.
pub proof fn lemma_trimmed_subrange(s: Seq<char>, lo: int, hi: int)
    requires
        0 <= lo <= hi <= s.len(),
        forall|i: int| 0 <= i < lo ==> is_space(s[i]),
        forall|i: int| hi <= i < s.len() ==> is_space(s[i]),
        lo < hi ==> !is_space(s[lo]) && !is_space(s[hi - 1]),
        lo == hi ==> lo == s.len(),
    ensures
        trimmed(s) == s.subrange(lo, hi),
{
    lemma_trim_start_subrange(s, lo);
    let t = s.subrange(lo, s.len() as int);
    lemma_trim_end_subrange(t, hi - lo);
    assert(t.subrange(0, hi - lo) =~= s.subrange(lo, hi));
}

/// The greeting built around an already-trimmed name.
pub open spec fn greeting_of(name: Seq<char>) -> Seq<char> {
    "Hello, "@ + name + "! You've been greeted from Rust!"@
}

/// What `greet` returns, as a function of the input characters alone: the
/// error message for an empty or over-long trimmed name, else the greeting
/// around the trimmed name.
pub open spec fn greet_spec(s: Seq<char>) -> Result<Seq<char>, Seq<char>> {
    if trimmed(s).len() == 0 {
        Err("Name cannot be empty"@)
    } else if trimmed(s).len() > MAX_NAME_CHARS {
        Err("Name is too long (max 100 characters)"@)
    } else {
        Ok(greeting_of(trimmed(s)))
    }
}

/// The characters of a `greet` result, success and error alike.
pub open spec fn greet_view(r: Result<String, String>) -> Result<Seq<char>, Seq<char>> {
    match r {
        Ok(s) => Ok(s@),
        Err(e) => Err(e@),
    }
}

/// Validate a name and format a greeting for it.
///
/// The name is trimmed of leading and trailing whitespace; an empty or
/// over-long trimmed name is rejected with a message saying why, and any
/// other is embedded in the greeting sentence.
pub fn greet(name: &str) -> (r: Result<String, String>)
    ensures
        greet_view(r) == greet_spec(name@),
        r is Ok <==> 0 < trimmed(name@).len() <= MAX_NAME_CHARS,
{
    let ghost s = name@;
    let n = name.unicode_len();

    let mut lo: usize = 0;
    while lo < n
        invariant
            s == name@,
            n == s.len(),
            lo <= n,
            forall|i: int| 0 <= i < lo ==> is_space(s[i]),
        ensures
            lo <= n,
            forall|i: int| 0 <= i < lo ==> is_space(s[i]),
            lo < n ==> !is_space(s[lo as int]),
        decreases n - lo,
    {
        if !is_space_char(name.get_char(lo)) {
            break;
        }
        lo = lo + 1;
    }

    if lo == n {
        proof {
            lemma_trimmed_subrange(s, lo as int, lo as int);
        }
        return Err(String::from_str("Name cannot be empty"));
    }

    let mut hi: usize = n;
    loop
        invariant
            s == name@,
            n == s.len(),
            lo < hi <= n,
            !is_space(s[lo as int]),
            forall|i: int| hi <= i < n ==> is_space(s[i]),
        ensures
            lo < hi <= n,
            forall|i: int| hi <= i < n ==> is_space(s[i]),
            !is_space(s[hi - 1]),
        decreases hi,
    {
        if !is_space_char(name.get_char(hi - 1)) {
            break;
        }
        hi = hi - 1;
    }

    proof {
        lemma_trimmed_subrange(s, lo as int, hi as int);
    }

    if hi - lo > MAX_NAME_CHARS {
        return Err(String::from_str("Name is too long (max 100 characters)"));
    }

    let trimmed_name = name.substring_char(lo, hi);
    let mut out = String::from_str("Hello, ");
    out.append(trimmed_name);
    out.append("! You've been greeted from Rust!");
    proof {
        assert(out@ =~= greeting_of(trimmed(s)));
    }
    Ok(out)
}

/// Every name whose trimmed form is non-empty and within the length bound is
/// greeted, and the greeting is built around exactly the trimmed name.
pub proof fn lemma_greet_accepts(s: Seq<char>)
    requires
        0 < trimmed(s).len() <= MAX_NAME_CHARS,
    ensures
        greet_spec(s) == Ok::<Seq<char>, Seq<char>>(greeting_of(trimmed(s))),
{
}

/// A name that is empty after trimming is rejected with the empty-name
/// message, whatever whitespace it was made of.
pub proof fn lemma_greet_rejects_blank(s: Seq<char>)
    requires
        trimmed(s).len() == 0,
    ensures
        greet_spec(s) == Err::<Seq<char>, Seq<char>>("Name cannot be empty"@),
{
}

/// A name whose trimmed form exceeds the length bound is rejected with the
/// too-long message.
pub proof fn lemma_greet_rejects_long(s: Seq<char>)
    requires
        trimmed(s).len() > MAX_NAME_CHARS,
    ensures
        greet_spec(s) == Err::<Seq<char>, Seq<char>>("Name is too long (max 100 characters)"@),
{
}

/// Greeting is pure: the outcome is a function of the input characters alone,
/// so two calls on equal inputs yield equal results.
pub proof fn lemma_greet_pure(s1: Seq<char>, s2: Seq<char>)
    requires
        s1 == s2,
    ensures
        greet_spec(s1) == greet_spec(s2),
{
}

} // verus!
