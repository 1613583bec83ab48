//! URI sanitization: strip embedded nul characters, then trim leading and
//! trailing whitespace. Stripping before trimming makes the operation
//! idempotent: the result contains no nul character anywhere and no
//! whitespace at either end, so a second pass changes nothing.

use vstd::prelude::*;

verus! {

use vstd::string::StrSliceExecFns;

/// Whether `c` has the Unicode `White_Space` property, the set of characters
/// that `str::trim` removes.
pub open spec fn is_wspace(c: char) -> bool {
    let v = c as u32;
    (0x09 <= v && v <= 0x0D) || v == 0x20 || v == 0x85 || v == 0xA0 || v == 0x1680 || (0x2000
        <= v && v <= 0x200A) || v == 0x2028 || v == 0x2029 || v == 0x202F || v == 0x205F || v
        == 0x3000
}

/// Executable check for [`is_wspace`].
pub fn char_is_wspace(c: char) -> (r: bool)
    ensures
        r == is_wspace(c),
{
    let v = c as u32;
    (0x09 <= v && v <= 0x0D) || v == 0x20 || v == 0x85 || v == 0xA0 || v == 0x1680 || (0x2000
        <= v && v <= 0x200A) || v == 0x2028 || v == 0x2029 || v == 0x202F || v == 0x205F || v
        == 0x3000
}

/// The sequence `s` with every nul character removed.
pub open spec fn strip_nuls(s: Seq<char>) -> Seq<char>
    decreases s.len(),
{
    if s.len() == 0 {
        Seq::empty()
    } else if s.last() == '\0' {
        strip_nuls(s.drop_last())
    } else {
        strip_nuls(s.drop_last()).push(s.last())
    }
}

/// The sequence `s` without its leading whitespace.
pub open spec fn trim_start(s: Seq<char>) -> Seq<char>
    decreases s.len(),
{
    if s.len() == 0 {
        s
    } else if is_wspace(s.first()) {
        trim_start(s.drop_first())
    } else {
        s
    }
}

/// The sequence `s` without its trailing whitespace.
pub open spec fn trim_end(s: Seq<char>) -> Seq<char>
    decreases s.len(),
{
    if s.len() == 0 {
        s
    } else if is_wspace(s.last()) {
        trim_end(s.drop_last())
    } else {
        s
    }
}

/// What sanitization produces: nul characters removed, then both ends
/// trimmed of whitespace.
pub open spec fn sanitize_spec(s: Seq<char>) -> Seq<char> {
    trim_end(trim_start(strip_nuls(s)))
}

proof fn lemma_strip_nuls_no_nul(s: Seq<char>)
    ensures
        forall|i: int| 0 <= i < strip_nuls(s).len() ==> strip_nuls(s)[i] != '\0',
    decreases s.len(),
{
    if s.len() > 0 {
        lemma_strip_nuls_no_nul(s.drop_last());
        if s.last() != '\0' {
            let r = strip_nuls(s);
            assert forall|i: int| 0 <= i < r.len() implies r[i] != '\0' by {
                if i < r.len() - 1 {
                    assert(r[i] == strip_nuls(s.drop_last())[i]);
                } else {
                    assert(r[i] == s.last());
                }
            }
        }
    }
}

proof fn lemma_strip_nuls_id(s: Seq<char>)
    requires
        forall|i: int| 0 <= i < s.len() ==> s[i] != '\0',
    ensures
        strip_nuls(s) == s,
    decreases s.len(),
{
    if s.len() == 0 {
        assert(strip_nuls(s) =~= s);
    } else {
        lemma_strip_nuls_id(s.drop_last());
        assert(strip_nuls(s) =~= s.drop_last().push(s.last()));
        assert(s.drop_last().push(s.last()) =~= s);
    }
}

/// Skipping a whitespace prefix does not change what `trim_start` yields.
proof fn lemma_trim_start_skip(s: Seq<char>, a: int)
    requires
        0 <= a <= s.len(),
        forall|j: int| 0 <= j < a ==> is_wspace(s[j]),
    ensures
        trim_start(s) == trim_start(s.subrange(a, s.len() as int)),
    decreases a,
{
    if a > 0 {
        assert(is_wspace(s.first()));
        let t = s.drop_first();
        assert(t =~= s.subrange(1, s.len() as int));
        lemma_trim_start_skip(t, a - 1);
        assert(t.subrange(a - 1, t.len() as int) =~= s.subrange(a, s.len() as int));
    } else {
        assert(s.subrange(0, s.len() as int) =~= s);
    }
}

/// Dropping a whitespace suffix does not change what `trim_end` yields.
proof fn lemma_trim_end_skip(s: Seq<char>, b: int)
    requires
        0 <= b <= s.len(),
        forall|j: int| b <= j < s.len() ==> is_wspace(s[j]),
    ensures
        trim_end(s) == trim_end(s.subrange(0, b)),
    decreases s.len() - b,
{
    if b < s.len() {
        assert(is_wspace(s.last()));
        let t = s.drop_last();
        assert(t =~= s.subrange(0, s.len() - 1));
        assert(forall|j: int| b <= j < t.len() ==> t[j] == s[j] && is_wspace(t[j]));
        lemma_trim_end_skip(t, b);
        assert(t.subrange(0, b) =~= s.subrange(0, b));
    } else {
        assert(s.subrange(0, s.len() as int) =~= s);
    }
}

/// `trim_start` of a sequence whose first character is not whitespace, or
/// which is empty, is the sequence itself; likewise `trim_end` at the back.
proof fn lemma_trim_fixed(s: Seq<char>)
    requires
        s.len() == 0 || !is_wspace(s.first()),
        s.len() == 0 || !is_wspace(s.last()),
    ensures
        trim_start(s) == s,
        trim_end(s) == s,
{
}

proof fn lemma_trim_end_prefix(s: Seq<char>)
    ensures
        trim_end(s).len() <= s.len(),
        trim_end(s) == s.subrange(0, trim_end(s).len() as int),
    decreases s.len(),
{
    if s.len() == 0 {
        assert(trim_end(s) =~= s.subrange(0, trim_end(s).len() as int));
    } else if is_wspace(s.last()) {
        let t = s.drop_last();
        lemma_trim_end_prefix(t);
        assert(t =~= s.subrange(0, s.len() - 1));
        assert(t.subrange(0, trim_end(t).len() as int) =~= s.subrange(
            0,
            trim_end(t).len() as int,
        ));
    } else {
        assert(trim_end(s) =~= s.subrange(0, trim_end(s).len() as int));
    }
}

proof fn lemma_trim_end_last(s: Seq<char>)
    ensures
        trim_end(s).len() > 0 ==> !is_wspace(trim_end(s).last()),
    decreases s.len(),
{
    if s.len() > 0 && is_wspace(s.last()) {
        lemma_trim_end_last(s.drop_last());
    }
}

proof fn lemma_trim_start_first(s: Seq<char>)
    ensures
        trim_start(s).len() > 0 ==> !is_wspace(trim_start(s).first()),
    decreases s.len(),
{
    if s.len() > 0 && is_wspace(s.first()) {
        lemma_trim_start_first(s.drop_first());
    }
}

proof fn lemma_trim_no_nul(s: Seq<char>)
    requires
        forall|i: int| 0 <= i < s.len() ==> s[i] != '\0',
    ensures
        forall|i: int| 0 <= i < trim_start(s).len() ==> trim_start(s)[i] != '\0',
        forall|i: int| 0 <= i < trim_end(s).len() ==> trim_end(s)[i] != '\0',
    decreases s.len(),
{
    if s.len() > 0 {
        let df = s.drop_first();
        let dl = s.drop_last();
        assert forall|i: int| 0 <= i < df.len() implies df[i] != '\0' by {
            assert(df[i] == s[i + 1]);
        }
        assert forall|i: int| 0 <= i < dl.len() implies dl[i] != '\0' by {
            assert(dl[i] == s[i]);
        }
        lemma_trim_no_nul(df);
        lemma_trim_no_nul(dl);
        if is_wspace(s.first()) {
            assert(trim_start(s) == trim_start(df));
        } else {
            assert(trim_start(s) == s);
        }
        if is_wspace(s.last()) {
            assert(trim_end(s) == trim_end(dl));
        } else {
            assert(trim_end(s) == s);
        }
    }
}

/// The sanitized form of any string holds no nul character and no whitespace
/// at either end.
pub proof fn lemma_sanitize_clean(s: Seq<char>)
    ensures
        forall|i: int| 0 <= i < sanitize_spec(s).len() ==> sanitize_spec(s)[i] != '\0',
        sanitize_spec(s).len() > 0 ==> !is_wspace(sanitize_spec(s).first()),
        sanitize_spec(s).len() > 0 ==> !is_wspace(sanitize_spec(s).last()),
{
    let u = strip_nuls(s);
    let v = trim_start(u);
    lemma_strip_nuls_no_nul(s);
    lemma_trim_no_nul(u);
    lemma_trim_no_nul(v);
    lemma_trim_start_first(u);
    lemma_trim_end_last(v);
    lemma_trim_end_prefix(v);
    if trim_end(v).len() > 0 {
        assert(trim_end(v).first() == v.first());
    }
}

/// Sanitization is idempotent: a second pass over an already sanitized
/// string changes nothing.
pub proof fn lemma_sanitize_idempotent(s: Seq<char>)
    ensures
        sanitize_spec(sanitize_spec(s)) == sanitize_spec(s),
{
    let r = sanitize_spec(s);
    lemma_sanitize_clean(s);
    lemma_strip_nuls_id(r);
    lemma_trim_fixed(r);
}

/// Appends `c` to `out`.
///
/// Relies on `String::push`: appends the given character to the end of the
/// string.
#[verifier::external_body]
fn string_push(out: &mut String, c: char)
    ensures
        final(out)@ == old(out)@.push(c),
{
    out.push(c);
}

/// Builds the sanitized form of `s`: nul characters removed, whitespace
/// trimmed from both ends.
pub fn sanitize_str(s: &str) -> (r: String)
    ensures
        r@ == sanitize_spec(s@),
{
    let n = s.unicode_len();
    let mut kept: Vec<char> = Vec::new();
    let mut i: usize = 0;
    while i < n
        invariant
            i <= n,
            n == s@.len(),
            kept@ == strip_nuls(s@.subrange(0, i as int)),
        decreases n - i,
    {
        let c = s.get_char(i);
        proof {
            assert(s@.subrange(0, i + 1).drop_last() =~= s@.subrange(0, i as int));
            assert(s@.subrange(0, i + 1).last() == s@[i as int]);
        }
        if c != '\0' {
            kept.push(c);
        }
        i += 1;
    }
    proof {
        assert(s@.subrange(0, n as int) =~= s@);
    }
    let len = kept.len();
    let mut a: usize = 0;
    while a < len && char_is_wspace(kept[a])
        invariant
            a <= len,
            len == kept@.len(),
            forall|j: int| 0 <= j < a ==> is_wspace(kept@[j]),
        decreases len - a,
    {
        a += 1;
    }
    proof {
        lemma_trim_start_skip(kept@, a as int);
    }
    let mut b: usize = len;
    while b > a && char_is_wspace(kept[b - 1])
        invariant
            a <= b <= len,
            len == kept@.len(),
            forall|j: int| 0 <= j < a ==> is_wspace(kept@[j]),
            forall|j: int| b <= j < len ==> is_wspace(kept@[j]),
        decreases b,
    {
        b -= 1;
    }
    let ghost t = kept@.subrange(a as int, len as int);
    proof {
        if a == len {
            assert(t =~= Seq::<char>::empty());
            assert(trim_start(t) == t);
        } else {
            assert(!is_wspace(kept@[a as int]));
            assert(trim_start(t) == t);
        }
        assert(forall|j: int| b - a <= j < t.len() ==> is_wspace(t[j]));
        lemma_trim_end_skip(t, b - a);
        assert(t.subrange(0, b - a) =~= kept@.subrange(a as int, b as int));
        if b > a {
            assert(!is_wspace(kept@[b - 1]));
            assert(!is_wspace(t.subrange(0, b - a).last()));
            lemma_trim_fixed(t.subrange(0, b - a));
        } else {
            assert(t.subrange(0, b - a) =~= Seq::<char>::empty());
        }
        assert(trim_end(trim_start(t)) == kept@.subrange(a as int, b as int));
    }
    let mut out = String::new();
    let mut i: usize = a;
    while i < b
        invariant
            a <= i <= b <= len,
            len == kept@.len(),
            out@ == kept@.subrange(a as int, i as int),
        decreases b - i,
    {
        let c = kept[i];
        string_push(&mut out, c);
        proof {
            assert(kept@.subrange(a as int, i + 1) =~= kept@.subrange(a as int, i as int).push(
                kept@[i as int],
            ));
        }
        i += 1;
    }
    proof {
        assert(out@ == sanitize_spec(s@));
    }
    out
}

} // verus!
