use vstd::prelude::*;

verus! {

/// The text of `s` with every `'.'` replaced by `'-'`.
///
/// Template variable names cannot contain dots, so every key that the
/// collector derives from an artifact base name goes through this
/// normalization first.
pub open spec fn replace_dots(s: Seq<char>) -> Seq<char> {
    Seq::new(s.len(), |i: int| if s[i] == '.' { '-' } else { s[i] })
}

/// The key under which an artifact's size in megabytes is recorded.
pub open spec fn size_key(base: Seq<char>) -> Seq<char> {
    replace_dots(base) + "-size"@
}

/// The key under which an artifact's optional version suffix is recorded.
pub open spec fn version_key(base: Seq<char>) -> Seq<char> {
    replace_dots(base) + "-version"@
}

/// Key derivation normalizes the base name before a suffix is appended:
/// the derived keys are exactly the dot-free form of the base name followed
/// by the `-size` or `-version` suffix, the normalization keeps the length
/// and every character other than `'.'`, and no `'.'` survives it.
pub proof fn lemma_key_derivation(base: Seq<char>)
    ensures
        size_key(base) == replace_dots(base) + "-size"@,
        version_key(base) == replace_dots(base) + "-version"@,
        replace_dots(base).len() == base.len(),
        forall|i: int|
            0 <= i < base.len() ==> replace_dots(base)[i] == (if base[i] == '.' {
                '-'
            } else {
                base[i]
            }),
        forall|i: int| 0 <= i < base.len() ==> replace_dots(base)[i] != '.',
{
}

/// Replaces every `'.'` in `base` with `'-'`.
pub fn derive_key(base: &str) -> (r: String)
    ensures
        r@ == replace_dots(base@),
{
    let n = base.unicode_len();
    let mut out = String::new();
    let mut i: usize = 0;
    while i < n
        invariant
            n == base@.len(),
            i <= n,
            out@ == replace_dots(base@).take(i as int),
        decreases n - i,
    {
        let c = base.get_char(i);
        if c == '.' {
            out.append("-");
            proof {
                reveal_strlit("-");
            }
        } else {
            let piece = base.substring_char(i, i + 1);
            out.append(piece);
        }
        proof {
            assert(out@ =~= replace_dots(base@).take(i + 1 as int));
        }
        i = i + 1;
    }
    assert(out@ =~= replace_dots(base@));
    out
}

/// The size key for `base`, as a fresh string.
pub fn size_key_of(base: &str) -> (r: String)
    ensures
        r@ == size_key(base@),
{
    let mut k = derive_key(base);
    k.append("-size");
    k
}

/// The version key for `base`, as a fresh string.
pub fn version_key_of(base: &str) -> (r: String)
    ensures
        r@ == version_key(base@),
{
    let mut k = derive_key(base);
    k.append("-version");
    k
}

/// Character-for-character equality of two string slices.
pub fn str_eq(a: &str, b: &str) -> (r: bool)
    ensures
        r == (a@ == b@),
{
    let na = a.unicode_len();
    let nb = b.unicode_len();
    if na != nb {
        return false;
    }
    let mut i: usize = 0;
    while i < na
        invariant
            na == a@.len(),
            na == b@.len(),
            i <= na,
            forall|j: int| 0 <= j < i ==> a@[j] == b@[j],
        decreases na - i,
    {
        if a.get_char(i) != b.get_char(i) {
            return false;
        }
        i = i + 1;
    }
    assert(a@ =~= b@);
    true
}

/// The file name of the artifact itself: `{base}.{ext}`.
pub fn artifact_file_name(base: &str, ext: &str) -> (r: String)
    ensures
        r@ == base@ + "."@ + ext@,
{
    let mut s = base.to_owned();
    s.append(".");
    s.append(ext);
    assert(s@ =~= base@ + "."@ + ext@);
    s
}

/// The file name of the artifact's sidecar version file: `{base}-version.txt`.
pub fn version_file_name(base: &str) -> (r: String)
    ensures
        r@ == base@ + "-version.txt"@,
{
    let mut s = base.to_owned();
    s.append("-version.txt");
    s
}

} // verus!
