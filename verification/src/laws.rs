use vstd::prelude::*;

use crate::catalog::{catalog_bases, lemma_catalog_bases_distinct};
use crate::collect::{
    collect_prefix, collect_step, spec_collect, trim_of, version_value, Reading, BYTES_PER_MB,
};
use crate::numfmt::dec_rep;
use crate::strutil::{size_key, version_key};

verus! {

/// A size key never collides with a version key: the two suffixes end in
/// different characters.
proof fn lemma_size_version_keys_differ(b1: Seq<char>, b2: Seq<char>)
    ensures
        size_key(b1) != version_key(b2),
{
    reveal_strlit("-size");
    reveal_strlit("-version");
    if size_key(b1) == version_key(b2) {
        let s = size_key(b1);
        let n = s.len() as int;
        assert(s[n - 1] == "-size"@[4]);
        assert(version_key(b2)[n - 1] == "-version"@[(n - 1) - replace_dots_len(b2)]);
        assert(false);
    }
}

/// The length of the normalized base name, named so the proof above can
/// point at it.
spec fn replace_dots_len(b: Seq<char>) -> int {
    crate::strutil::replace_dots(b).len() as int
}

/// No derived key collides with the reserved `now` key: the suffixes alone
/// are already longer than it.
proof fn lemma_keys_not_now(b: Seq<char>)
    ensures
        size_key(b) != "now"@,
        version_key(b) != "now"@,
{
    reveal_strlit("now");
    reveal_strlit("-size");
    reveal_strlit("-version");
    assert(size_key(b).len() >= 5);
    assert(version_key(b).len() >= 8);
}

/// Every key the first `n` artifacts may derive.
spec fn derived_keys(bases: Seq<Seq<char>>, n: int) -> Set<Seq<char>>
    decreases n,
{
    if n <= 0 {
        Set::empty()
    } else {
        derived_keys(bases, n - 1).insert(size_key(bases[n - 1])).insert(
            version_key(bases[n - 1]),
        )
    }
}

/// Processing the first `n` artifacts binds derived keys only.
proof fn lemma_prefix_dom(bases: Seq<Seq<char>>, rs: Seq<Reading>, n: int)
    requires
        0 <= n,
    ensures
        forall|k: Seq<char>| #[trigger]
            collect_prefix(bases, rs, n).contains_key(k) ==> derived_keys(bases, n).contains(k),
    decreases n,
{
    if n > 0 {
        lemma_prefix_dom(bases, rs, n - 1);
        assert forall|k: Seq<char>| #[trigger]
            collect_prefix(bases, rs, n).contains_key(k) implies derived_keys(bases, n).contains(
            k,
        ) by {
            if !collect_prefix(bases, rs, n - 1).contains_key(k) {
                assert(k == size_key(bases[n - 1]) || k == version_key(bases[n - 1]));
            }
        }
    }
}

/// A key that no entry among the first `n` derives is not a derived key.
proof fn lemma_not_in_derived(bases: Seq<Seq<char>>, n: int, k: Seq<char>)
    requires
        0 <= n,
        forall|j: int| 0 <= j < n ==> size_key(bases[j]) != k && version_key(bases[j]) != k,
    ensures
        !derived_keys(bases, n).contains(k),
    decreases n,
{
    if n > 0 {
        lemma_not_in_derived(bases, n - 1, k);
    }
}

/// What the first `n` processed artifacts bind for artifact `i`, where no
/// other entry among them derives the same keys.
proof fn lemma_prefix_artifact(bases: Seq<Seq<char>>, rs: Seq<Reading>, i: int, n: int)
    requires
        bases.len() == rs.len(),
        0 <= i < n <= bases.len(),
        forall|j: int| 0 <= j < n && j != i ==> size_key(bases[j]) != size_key(bases[i]),
        forall|j: int| 0 <= j < n && j != i ==> version_key(bases[j]) != version_key(bases[i]),
    ensures
        collect_prefix(bases, rs, n).contains_key(size_key(bases[i])),
        collect_prefix(bases, rs, n)[size_key(bases[i])] == dec_rep(
            (rs[i].size_bytes / BYTES_PER_MB) as nat,
        ),
        match rs[i].sidecar {
            Option::None => !collect_prefix(bases, rs, n).contains_key(version_key(bases[i])),
            Option::Some(c) => if trim_of(c@).len() > 0 {
                collect_prefix(bases, rs, n).contains_key(version_key(bases[i]))
                    && collect_prefix(bases, rs, n)[version_key(bases[i])] == version_value(c@)
            } else {
                !collect_prefix(bases, rs, n).contains_key(version_key(bases[i]))
            },
        },
    decreases n,
{
    lemma_size_version_keys_differ(bases[i], bases[i]);
    if n - 1 == i {
        lemma_prefix_dom(bases, rs, i);
        assert forall|j: int| 0 <= j < i implies size_key(bases[j]) != version_key(bases[i])
            && version_key(bases[j]) != version_key(bases[i]) by {
            lemma_size_version_keys_differ(bases[j], bases[i]);
        }
        lemma_not_in_derived(bases, i, version_key(bases[i]));
        assert(!collect_prefix(bases, rs, i).contains_key(version_key(bases[i])));
    } else {
        lemma_prefix_artifact(bases, rs, i, n - 1);
        lemma_size_version_keys_differ(bases[n - 1], bases[i]);
        lemma_size_version_keys_differ(bases[i], bases[n - 1]);
    }
}

/// What one run records for one artifact. Where no other catalog entry
/// derives the same keys: the artifact's size key is always bound, to the
/// decimal text of its byte size divided (flooring) by `BYTES_PER_MB`; and
/// its version key is bound exactly when a sidecar text was read and trims
/// to something non-empty, to that trimmed text wrapped as ` (...)`. A
/// missing artifact therefore reads as size `0` with no version binding,
/// and a sidecar of nothing but whitespace leaves the version key absent
/// rather than bound to an empty value.
pub proof fn lemma_artifact_bindings(
    bases: Seq<Seq<char>>,
    rs: Seq<Reading>,
    now: Seq<char>,
    i: int,
)
    requires
        bases.len() == rs.len(),
        0 <= i < bases.len(),
        forall|j: int|
            0 <= j < bases.len() && j != i ==> size_key(bases[j]) != size_key(bases[i]),
        forall|j: int|
            0 <= j < bases.len() && j != i ==> version_key(bases[j]) != version_key(bases[i]),
    ensures
        spec_collect(bases, rs, now).contains_key(size_key(bases[i])),
        spec_collect(bases, rs, now)[size_key(bases[i])] == dec_rep(
            (rs[i].size_bytes / BYTES_PER_MB) as nat,
        ),
        match rs[i].sidecar {
            Option::None => !spec_collect(bases, rs, now).contains_key(version_key(bases[i])),
            Option::Some(c) => if trim_of(c@).len() > 0 {
                spec_collect(bases, rs, now).contains_key(version_key(bases[i]))
                    && spec_collect(bases, rs, now)[version_key(bases[i])] == version_value(c@)
            } else {
                !spec_collect(bases, rs, now).contains_key(version_key(bases[i]))
            },
        },
{
    lemma_prefix_artifact(bases, rs, i, bases.len() as int);
    lemma_keys_not_now(bases[i]);
}

/// Appending one suffix to two different texts never makes them equal.
proof fn lemma_append_cancels(a: Seq<char>, b: Seq<char>, s: Seq<char>)
    requires
        a + s == b + s,
    ensures
        a == b,
{
    assert((a + s).len() == a.len() + s.len());
    assert((b + s).len() == b.len() + s.len());
    assert(a.len() == b.len());
    assert forall|idx: int| 0 <= idx < a.len() implies a[idx] == b[idx] by {
        assert(a[idx] == (a + s)[idx]);
        assert(b[idx] == (b + s)[idx]);
    }
    assert(a =~= b);
}

/// What one run records for each artifact of the fixed catalog: the law of
/// `lemma_artifact_bindings`, with the catalog's key distinctness
/// discharged, so it holds of every run unconditionally. The size key is
/// always bound, to the decimal text of the artifact's byte size divided
/// (flooring) by `BYTES_PER_MB`; the version key is bound exactly when a
/// sidecar text was read and trims non-empty, to that trimmed text wrapped
/// as ` (...)`.
pub proof fn lemma_catalog_artifact_bindings(rs: Seq<Reading>, now: Seq<char>, i: int)
    requires
        rs.len() == catalog_bases().len(),
        0 <= i < catalog_bases().len(),
    ensures
        spec_collect(catalog_bases(), rs, now).contains_key(size_key(catalog_bases()[i])),
        spec_collect(catalog_bases(), rs, now)[size_key(catalog_bases()[i])] == dec_rep(
            (rs[i].size_bytes / BYTES_PER_MB) as nat,
        ),
        match rs[i].sidecar {
            Option::None => !spec_collect(catalog_bases(), rs, now).contains_key(
                version_key(catalog_bases()[i]),
            ),
            Option::Some(c) => if trim_of(c@).len() > 0 {
                spec_collect(catalog_bases(), rs, now).contains_key(
                    version_key(catalog_bases()[i]),
                ) && spec_collect(catalog_bases(), rs, now)[version_key(catalog_bases()[i])]
                    == version_value(c@)
            } else {
                !spec_collect(catalog_bases(), rs, now).contains_key(
                    version_key(catalog_bases()[i]),
                )
            },
        },
{
    lemma_catalog_bases_distinct();
    assert forall|j: int|
        0 <= j < catalog_bases().len() && j != i implies size_key(catalog_bases()[j])
        != size_key(catalog_bases()[i]) && version_key(catalog_bases()[j]) != version_key(
        catalog_bases()[i],
    ) by {
        if size_key(catalog_bases()[j]) == size_key(catalog_bases()[i]) {
            lemma_append_cancels(
                crate::strutil::replace_dots(catalog_bases()[j]),
                crate::strutil::replace_dots(catalog_bases()[i]),
                "-size"@,
            );
        }
        if version_key(catalog_bases()[j]) == version_key(catalog_bases()[i]) {
            lemma_append_cancels(
                crate::strutil::replace_dots(catalog_bases()[j]),
                crate::strutil::replace_dots(catalog_bases()[i]),
                "-version"@,
            );
        }
    }
    lemma_artifact_bindings(catalog_bases(), rs, now, i);
}

/// Rerunning against an unchanged directory changes nothing but the
/// timestamp: two collections from the same readings bind the same keys,
/// agree on every key other than `now`, and each binds `now` to its own
/// timestamp text.
pub proof fn lemma_rerun_differs_only_in_now(
    bases: Seq<Seq<char>>,
    rs: Seq<Reading>,
    now1: Seq<char>,
    now2: Seq<char>,
)
    ensures
        spec_collect(bases, rs, now1).dom() == spec_collect(bases, rs, now2).dom(),
        spec_collect(bases, rs, now1)["now"@] == now1,
        spec_collect(bases, rs, now2)["now"@] == now2,
        forall|k: Seq<char>|
            #![trigger spec_collect(bases, rs, now1)[k], spec_collect(bases, rs, now2)[k]]
            spec_collect(bases, rs, now1).contains_key(k) && k != "now"@ ==> spec_collect(
                bases,
                rs,
                now1,
            )[k] == spec_collect(bases, rs, now2)[k],
{
    assert(spec_collect(bases, rs, now1).dom() =~= spec_collect(bases, rs, now2).dom());
}

} // verus!
