//! Verified helpers on strings and byte slices: equality, substring search,
//! and joining command tokens with spaces.
use vstd::prelude::*;
use vstd::string::*;

verus! {

/// Holds when `needle` occurs as a contiguous run somewhere in `haystack`.
pub open spec fn contains_seq<T>(haystack: Seq<T>, needle: Seq<T>) -> bool {
    exists|i: int|
        0 <= i && i + needle.len() <= haystack.len() && #[trigger] haystack.subrange(
            i,
            i + needle.len(),
        ) == needle
}

/// Character-by-character string equality, proved against the string views.
pub fn str_eq(a: &str, b: &str) -> (r: bool)
    ensures
        r == (a@ == b@),
{
    let a_len = a.unicode_len();
    let b_len = b.unicode_len();
    if a_len != b_len {
        return false;
    }
    let mut i: usize = 0;
    while i < a_len
        invariant
            i <= a_len,
            a_len == a@.len(),
            a_len == b@.len(),
            forall|j: int| 0 <= j < i ==> a@[j] == b@[j],
        decreases a_len - i,
    {
        if a.get_char(i) != b.get_char(i) {
            return false;
        }
        i = i + 1;
    }
    proof {
        assert(a@ =~= b@);
    }
    true
}

/// Substring search over byte slices.
pub fn slice_contains(haystack: &[u8], needle: &[u8]) -> (r: bool)
    ensures
        r == contains_seq(haystack@, needle@),
{
    let n = needle.len();
    let h = haystack.len();
    if n > h {
        return false;
    }
    if n == 0 {
        proof {
            assert(haystack@.subrange(0, 0 + needle@.len() as int) =~= needle@);
        }
        return true;
    }
    let mut i: usize = 0;
    while i <= h - n
        invariant
            0 < n <= h,
            h == haystack@.len(),
            n == needle@.len(),
            i <= h - n + 1,
            forall|k: int|
                0 <= k < i ==> #[trigger] haystack@.subrange(k, k + needle@.len()) != needle@,
        decreases h - n + 1 - i,
    {
        let mut j: usize = 0;
        let mut mismatch = false;
        while j < n
            invariant
                i + n <= h,
                h == haystack@.len(),
                n == needle@.len(),
                j <= n,
                !mismatch ==> forall|l: int| 0 <= l < j ==> haystack@[i + l] == needle@[l],
                mismatch ==> haystack@.subrange(i as int, i + needle@.len()) != needle@,
            decreases n - j,
        {
            if haystack[i + j] != needle[j] {
                proof {
                    assert(haystack@.subrange(i as int, i + needle@.len())[j as int]
                        == haystack@[i + j]);
                }
                mismatch = true;
                j = n;
            } else {
                j = j + 1;
            }
        }
        if !mismatch {
            proof {
                assert(haystack@.subrange(i as int, i + needle@.len()) =~= needle@);
            }
            return true;
        }
        i = i + 1;
    }
    proof {
        assert forall|k: int| 0 <= k && k + needle@.len() <= haystack@.len() implies #[trigger] haystack@.subrange(k, k + needle@.len()) != needle@ by {
            assert(0 <= k < i);
        }
    }
    false
}

/// The tokens of `parts` joined with a single space between neighbours.
pub open spec fn join_spaces(parts: Seq<Seq<char>>) -> Seq<char>
    decreases parts.len(),
{
    if parts.len() == 0 {
        Seq::empty()
    } else if parts.len() == 1 {
        parts[0]
    } else {
        join_spaces(parts.drop_last()) + " "@ + parts.last()
    }
}

/// Joins command tokens into the single shell command line that is executed.
pub fn join_command(args: &Vec<String>) -> (r: String)
    ensures
        r@ == join_spaces(args.deep_view()),
{
    let mut out = String::new();
    let mut i: usize = 0;
    while i < args.len()
        invariant
            i <= args.len(),
            args.deep_view().len() == args@.len(),
            out@ == join_spaces(args.deep_view().subrange(0, i as int)),
        decreases args.len() - i,
    {
        if i > 0 {
            out.append(" ");
        }
        out.append(args[i].as_str());
        proof {
            let parts = args.deep_view();
            assert(args[i as int].deep_view() == parts[i as int]);
            assert(parts.subrange(0, i + 1).drop_last() =~= parts.subrange(0, i as int));
            assert(parts.subrange(0, i + 1).last() == parts[i as int]);
        }
        i = i + 1;
    }
    proof {
        assert(args.deep_view().subrange(0, args@.len() as int) =~= args.deep_view());
    }
    out
}

/// Appends a copy of every string of `src` to `dst`, in order.
pub fn extend_strings(dst: &mut Vec<String>, src: &Vec<String>)
    ensures
        final(dst).deep_view() == old(dst).deep_view() + src.deep_view(),
{
    let ghost orig = dst@;
    let mut i: usize = 0;
    while i < src.len()
        invariant
            i <= src.len(),
            dst@.len() == orig.len() + i,
            forall|k: int| 0 <= k < orig.len() ==> dst@[k] == orig[k],
            forall|k: int| 0 <= k < i ==> (#[trigger] dst@[orig.len() + k])@ == src@[k]@,
        decreases src.len() - i,
    {
        let s = src[i].clone();
        proof {
            assert(s@ == src@[i as int]@);
        }
        dst.push(s);
        i = i + 1;
    }
    proof {
        assert forall|k: int| 0 <= k < dst@.len() implies #[trigger] dst.deep_view()[k] == (old(
            dst,
        ).deep_view() + src.deep_view())[k] by {
            if k < orig.len() {
                assert(dst@[k] == orig[k]);
            } else {
                assert(dst@[orig.len() + (k - orig.len())]@ == src@[k - orig.len()]@);
            }
        }
        assert(dst.deep_view() =~= old(dst).deep_view() + src.deep_view());
    }
}

/// The directory part of `path`: everything before the last `/`, or `None`
/// when the path has no separator at all.
pub fn parent_dir(path: &str) -> (r: Option<String>)
    ensures
        match r {
            Some(p) => exists|i: int|
                0 <= i < path@.len() && path@[i] == '/' && (forall|j: int|
                    i < j < path@.len() ==> path@[j] != '/') && p@ == path@.subrange(0, i),
            None => forall|i: int| 0 <= i < path@.len() ==> path@[i] != '/',
        },
{
    let len = path.unicode_len();
    let mut i: usize = len;
    while i > 0
        invariant
            i <= len,
            len == path@.len(),
            forall|j: int| i <= j < len ==> path@[j] != '/',
        decreases i,
    {
        i = i - 1;
        if path.get_char(i) == '/' {
            let prefix = path.substring_char(0, i);
            return Some(String::from_str(prefix));
        }
    }
    None
}

} // verus!
