use vstd::prelude::*;

use crate::strutil::replace_dots;

verus! {

/// The fixed catalog of expected release artifacts: every platform and
/// version combination the index page lists, as (base name, extension)
/// pairs, in display order.
pub open spec fn catalog_spec() -> Seq<(Seq<char>, Seq<char>)> {
    seq![
        ("gear-nightly-x86_64-unknown-linux-gnu"@, "tar.xz"@),
        ("gear-nightly-aarch64-apple-darwin"@, "tar.xz"@),
        ("gear-nightly-x86_64-apple-darwin"@, "tar.xz"@),
        ("gear-nightly-x86_64-pc-windows-msvc"@, "zip"@),
        ("gear-v0.3.2-x86_64-unknown-linux-gnu"@, "tar.xz"@),
        ("gear-v0.3.2-aarch64-apple-darwin"@, "tar.xz"@),
        ("gear-v0.3.2-x86_64-apple-darwin"@, "tar.xz"@),
        ("gear-v0.3.2-x86_64-pc-windows-msvc"@, "zip"@),
        ("gear-v0.3.1-x86_64-unknown-linux-gnu"@, "tar.xz"@),
        ("gear-v0.3.1-aarch64-apple-darwin"@, "tar.xz"@),
        ("gear-v0.3.1-x86_64-apple-darwin"@, "tar.xz"@),
        ("gear-v0.3.1-x86_64-pc-windows-msvc"@, "zip"@),
        ("gear-v0.2.1-x86_64-unknown-linux-gnu"@, "tar.xz"@),
        ("gear-v0.2.1-aarch64-apple-darwin"@, "tar.xz"@),
        ("gear-v0.2.1-x86_64-apple-darwin"@, "tar.xz"@),
        ("gear-v0.2.1-x86_64-pc-windows-msvc"@, "zip"@),
        ("gear-v0.2.0-x86_64-unknown-linux-gnu"@, "tar.xz"@),
        ("gear-v0.2.0-aarch64-apple-darwin"@, "tar.xz"@),
        ("gear-v0.2.0-x86_64-apple-darwin"@, "tar.xz"@),
        ("gear-v0.2.0-x86_64-pc-windows-msvc"@, "zip"@),
        ("gear-v0.1.6-x86_64-unknown-linux-gnu"@, "tar.xz"@),
        ("gear-v0.1.6-aarch64-apple-darwin"@, "tar.xz"@),
        ("gear-v0.1.6-x86_64-apple-darwin"@, "tar.xz"@),
        ("gear-v0.1.6-x86_64-pc-windows-msvc"@, "zip"@),
        ("gear-v0.1.5-x86_64-unknown-linux-gnu"@, "tar.xz"@),
        ("gear-v0.1.5-aarch64-apple-darwin"@, "tar.xz"@),
        ("gear-v0.1.5-x86_64-apple-darwin"@, "tar.xz"@),
        ("gear-v0.1.5-x86_64-pc-windows-msvc"@, "zip"@),
        ("gear-v0.1.4-x86_64-unknown-linux-gnu"@, "tar.xz"@),
        ("gear-v0.1.4-aarch64-apple-darwin"@, "tar.xz"@),
        ("gear-v0.1.4-x86_64-apple-darwin"@, "tar.xz"@),
        ("gear-v0.1.4-x86_64-pc-windows-msvc"@, "zip"@),
        ("gear-v0.1.3-x86_64-unknown-linux-gnu"@, "tar.xz"@),
        ("gear-v0.1.3-aarch64-apple-darwin"@, "tar.xz"@),
        ("gear-v0.1.3-x86_64-apple-darwin"@, "tar.xz"@),
        ("gear-v0.1.3-x86_64-pc-windows-msvc"@, "zip"@),
        ("gear-v0.1.2-x86_64-unknown-linux-gnu"@, "tar.xz"@),
        ("gear-v0.1.2-aarch64-apple-darwin"@, "tar.xz"@),
        ("gear-v0.1.2-x86_64-apple-darwin"@, "tar.xz"@),
        ("gear-v0.1.2-x86_64-pc-windows-msvc"@, "zip"@),
        ("gear-v0.1.1-x86_64-unknown-linux-gnu"@, "tar.xz"@),
        ("gear-v0.1.1-aarch64-apple-darwin"@, "tar.xz"@),
        ("gear-v0.1.1-x86_64-apple-darwin"@, "tar.xz"@),
        ("gear-v0.1.1-x86_64-pc-windows-msvc"@, "zip"@),
        ("vara-testnet-x86_64-unknown-linux-gnu"@, "tar.xz"@),
        ("vara-testnet-aarch64-apple-darwin"@, "tar.xz"@),
        ("vara-testnet-x86_64-apple-darwin"@, "tar.xz"@),
        ("vara-testnet-x86_64-pc-windows-msvc"@, "zip"@),
        ("vara-testnet-v1.2-x86_64-unknown-linux-gnu"@, "tar.xz"@),
        ("vara-testnet-v1.2-aarch64-apple-darwin"@, "tar.xz"@),
        ("vara-testnet-v1.2-x86_64-apple-darwin"@, "tar.xz"@),
        ("vara-testnet-v1.2-x86_64-pc-windows-msvc"@, "zip"@),
        ("vara-testnet-v1.1-x86_64-unknown-linux-gnu"@, "tar.xz"@),
        ("vara-testnet-v1.1-aarch64-apple-darwin"@, "tar.xz"@),
        ("vara-testnet-v1.1-x86_64-apple-darwin"@, "tar.xz"@),
        ("vara-testnet-v1.1-x86_64-pc-windows-msvc"@, "zip"@),
        ("vara-testnet-v1.0-x86_64-unknown-linux-gnu"@, "tar.xz"@),
        ("vara-testnet-v1.0-aarch64-apple-darwin"@, "tar.xz"@),
        ("vara-testnet-v1.0-x86_64-apple-darwin"@, "tar.xz"@),
        ("vara-testnet-v1.0-x86_64-pc-windows-msvc"@, "zip"@),
        ("vara-debug-x86_64-unknown-linux-gnu"@, "tar.xz"@),
        ("vara-debug-aarch64-apple-darwin"@, "tar.xz"@),
        ("vara-debug-x86_64-apple-darwin"@, "tar.xz"@),
        ("vara-debug-x86_64-pc-windows-msvc"@, "zip"@),
    ]
}

/// The base names of the catalog, in order.
pub open spec fn catalog_bases() -> Seq<Seq<char>> {
    catalog_spec().map(|i: int, p: (Seq<char>, Seq<char>)| p.0)
}

/// The catalog as data: one (base name, extension) pair per expected
/// artifact, in the order of `catalog_spec`.
#[verifier::rlimit(60)]
pub fn catalog() -> (r: Vec<(&'static str, &'static str)>)
    ensures
        r@.len() == catalog_spec().len(),
        forall|i: int|
            0 <= i < r@.len() ==> (#[trigger] r@[i]).0@ == catalog_spec()[i].0 && r@[i].1@
                == catalog_spec()[i].1,
{
    let mut v: Vec<(&'static str, &'static str)> = Vec::new();
    v.push(("gear-nightly-x86_64-unknown-linux-gnu", "tar.xz"));
    v.push(("gear-nightly-aarch64-apple-darwin", "tar.xz"));
    v.push(("gear-nightly-x86_64-apple-darwin", "tar.xz"));
    v.push(("gear-nightly-x86_64-pc-windows-msvc", "zip"));
    v.push(("gear-v0.3.2-x86_64-unknown-linux-gnu", "tar.xz"));
    v.push(("gear-v0.3.2-aarch64-apple-darwin", "tar.xz"));
    v.push(("gear-v0.3.2-x86_64-apple-darwin", "tar.xz"));
    v.push(("gear-v0.3.2-x86_64-pc-windows-msvc", "zip"));
    v.push(("gear-v0.3.1-x86_64-unknown-linux-gnu", "tar.xz"));
    v.push(("gear-v0.3.1-aarch64-apple-darwin", "tar.xz"));
    v.push(("gear-v0.3.1-x86_64-apple-darwin", "tar.xz"));
    v.push(("gear-v0.3.1-x86_64-pc-windows-msvc", "zip"));
    v.push(("gear-v0.2.1-x86_64-unknown-linux-gnu", "tar.xz"));
    v.push(("gear-v0.2.1-aarch64-apple-darwin", "tar.xz"));
    v.push(("gear-v0.2.1-x86_64-apple-darwin", "tar.xz"));
    v.push(("gear-v0.2.1-x86_64-pc-windows-msvc", "zip"));
    v.push(("gear-v0.2.0-x86_64-unknown-linux-gnu", "tar.xz"));
    v.push(("gear-v0.2.0-aarch64-apple-darwin", "tar.xz"));
    v.push(("gear-v0.2.0-x86_64-apple-darwin", "tar.xz"));
    v.push(("gear-v0.2.0-x86_64-pc-windows-msvc", "zip"));
    v.push(("gear-v0.1.6-x86_64-unknown-linux-gnu", "tar.xz"));
    v.push(("gear-v0.1.6-aarch64-apple-darwin", "tar.xz"));
    v.push(("gear-v0.1.6-x86_64-apple-darwin", "tar.xz"));
    v.push(("gear-v0.1.6-x86_64-pc-windows-msvc", "zip"));
    v.push(("gear-v0.1.5-x86_64-unknown-linux-gnu", "tar.xz"));
    v.push(("gear-v0.1.5-aarch64-apple-darwin", "tar.xz"));
    v.push(("gear-v0.1.5-x86_64-apple-darwin", "tar.xz"));
    v.push(("gear-v0.1.5-x86_64-pc-windows-msvc", "zip"));
    v.push(("gear-v0.1.4-x86_64-unknown-linux-gnu", "tar.xz"));
    v.push(("gear-v0.1.4-aarch64-apple-darwin", "tar.xz"));
    v.push(("gear-v0.1.4-x86_64-apple-darwin", "tar.xz"));
    v.push(("gear-v0.1.4-x86_64-pc-windows-msvc", "zip"));
    v.push(("gear-v0.1.3-x86_64-unknown-linux-gnu", "tar.xz"));
    v.push(("gear-v0.1.3-aarch64-apple-darwin", "tar.xz"));
    v.push(("gear-v0.1.3-x86_64-apple-darwin", "tar.xz"));
    v.push(("gear-v0.1.3-x86_64-pc-windows-msvc", "zip"));
    v.push(("gear-v0.1.2-x86_64-unknown-linux-gnu", "tar.xz"));
    v.push(("gear-v0.1.2-aarch64-apple-darwin", "tar.xz"));
    v.push(("gear-v0.1.2-x86_64-apple-darwin", "tar.xz"));
    v.push(("gear-v0.1.2-x86_64-pc-windows-msvc", "zip"));
    v.push(("gear-v0.1.1-x86_64-unknown-linux-gnu", "tar.xz"));
    v.push(("gear-v0.1.1-aarch64-apple-darwin", "tar.xz"));
    v.push(("gear-v0.1.1-x86_64-apple-darwin", "tar.xz"));
    v.push(("gear-v0.1.1-x86_64-pc-windows-msvc", "zip"));
    v.push(("vara-testnet-x86_64-unknown-linux-gnu", "tar.xz"));
    v.push(("vara-testnet-aarch64-apple-darwin", "tar.xz"));
    v.push(("vara-testnet-x86_64-apple-darwin", "tar.xz"));
    v.push(("vara-testnet-x86_64-pc-windows-msvc", "zip"));
    v.push(("vara-testnet-v1.2-x86_64-unknown-linux-gnu", "tar.xz"));
    v.push(("vara-testnet-v1.2-aarch64-apple-darwin", "tar.xz"));
    v.push(("vara-testnet-v1.2-x86_64-apple-darwin", "tar.xz"));
    v.push(("vara-testnet-v1.2-x86_64-pc-windows-msvc", "zip"));
    v.push(("vara-testnet-v1.1-x86_64-unknown-linux-gnu", "tar.xz"));
    v.push(("vara-testnet-v1.1-aarch64-apple-darwin", "tar.xz"));
    v.push(("vara-testnet-v1.1-x86_64-apple-darwin", "tar.xz"));
    v.push(("vara-testnet-v1.1-x86_64-pc-windows-msvc", "zip"));
    v.push(("vara-testnet-v1.0-x86_64-unknown-linux-gnu", "tar.xz"));
    v.push(("vara-testnet-v1.0-aarch64-apple-darwin", "tar.xz"));
    v.push(("vara-testnet-v1.0-x86_64-apple-darwin", "tar.xz"));
    v.push(("vara-testnet-v1.0-x86_64-pc-windows-msvc", "zip"));
    v.push(("vara-debug-x86_64-unknown-linux-gnu", "tar.xz"));
    v.push(("vara-debug-aarch64-apple-darwin", "tar.xz"));
    v.push(("vara-debug-x86_64-apple-darwin", "tar.xz"));
    v.push(("vara-debug-x86_64-pc-windows-msvc", "zip"));
    v
}

/// A projection that tells the catalog's derived keys apart: the
/// normalized name's length and three fixed characters of it.
spec fn key_mark(s: Seq<char>) -> (int, char, char, char) {
    (s.len() as int, s[8], s[10], s[16])
}

/// The mark of each catalog entry's normalized base name, by position.
spec fn mark_of(k: int) -> (int, char, char, char) {
    if k == 0 {
        (37, 'h', 'l', '_')
    } else if k == 1 {
        (33, 'h', 'l', 'c')
    } else if k == 2 {
        (32, 'h', 'l', '_')
    } else if k == 3 {
        (35, 'h', 'l', '_')
    } else if k == 4 {
        (36, '3', '2', '6')
    } else if k == 5 {
        (32, '3', '2', 'h')
    } else if k == 6 {
        (31, '3', '2', '6')
    } else if k == 7 {
        (34, '3', '2', '6')
    } else if k == 8 {
        (36, '3', '1', '6')
    } else if k == 9 {
        (32, '3', '1', 'h')
    } else if k == 10 {
        (31, '3', '1', '6')
    } else if k == 11 {
        (34, '3', '1', '6')
    } else if k == 12 {
        (36, '2', '1', '6')
    } else if k == 13 {
        (32, '2', '1', 'h')
    } else if k == 14 {
        (31, '2', '1', '6')
    } else if k == 15 {
        (34, '2', '1', '6')
    } else if k == 16 {
        (36, '2', '0', '6')
    } else if k == 17 {
        (32, '2', '0', 'h')
    } else if k == 18 {
        (31, '2', '0', '6')
    } else if k == 19 {
        (34, '2', '0', '6')
    } else if k == 20 {
        (36, '1', '6', '6')
    } else if k == 21 {
        (32, '1', '6', 'h')
    } else if k == 22 {
        (31, '1', '6', '6')
    } else if k == 23 {
        (34, '1', '6', '6')
    } else if k == 24 {
        (36, '1', '5', '6')
    } else if k == 25 {
        (32, '1', '5', 'h')
    } else if k == 26 {
        (31, '1', '5', '6')
    } else if k == 27 {
        (34, '1', '5', '6')
    } else if k == 28 {
        (36, '1', '4', '6')
    } else if k == 29 {
        (32, '1', '4', 'h')
    } else if k == 30 {
        (31, '1', '4', '6')
    } else if k == 31 {
        (34, '1', '4', '6')
    } else if k == 32 {
        (36, '1', '3', '6')
    } else if k == 33 {
        (32, '1', '3', 'h')
    } else if k == 34 {
        (31, '1', '3', '6')
    } else if k == 35 {
        (34, '1', '3', '6')
    } else if k == 36 {
        (36, '1', '2', '6')
    } else if k == 37 {
        (32, '1', '2', 'h')
    } else if k == 38 {
        (31, '1', '2', '6')
    } else if k == 39 {
        (34, '1', '2', '6')
    } else if k == 40 {
        (36, '1', '1', '6')
    } else if k == 41 {
        (32, '1', '1', 'h')
    } else if k == 42 {
        (31, '1', '1', '6')
    } else if k == 43 {
        (34, '1', '1', '6')
    } else if k == 44 {
        (37, 't', 'e', '_')
    } else if k == 45 {
        (33, 't', 'e', 'c')
    } else if k == 46 {
        (32, 't', 'e', '_')
    } else if k == 47 {
        (35, 't', 'e', '_')
    } else if k == 48 {
        (42, 't', 'e', '2')
    } else if k == 49 {
        (38, 't', 'e', '2')
    } else if k == 50 {
        (37, 't', 'e', '2')
    } else if k == 51 {
        (40, 't', 'e', '2')
    } else if k == 52 {
        (42, 't', 'e', '1')
    } else if k == 53 {
        (38, 't', 'e', '1')
    } else if k == 54 {
        (37, 't', 'e', '1')
    } else if k == 55 {
        (40, 't', 'e', '1')
    } else if k == 56 {
        (42, 't', 'e', '0')
    } else if k == 57 {
        (38, 't', 'e', '0')
    } else if k == 58 {
        (37, 't', 'e', '0')
    } else if k == 59 {
        (40, 't', 'e', '0')
    } else if k == 60 {
        (35, 'u', '-', '4')
    } else if k == 61 {
        (31, 'u', '-', '6')
    } else if k == 62 {
        (30, 'u', '-', '4')
    } else if k == 63 {
        (33, 'u', '-', '4')
    } else {
        (0, ' ', ' ', ' ')
    }
}

/// Each entry's normalized base name carries its own mark.
#[verifier::rlimit(100)]
proof fn lemma_catalog_marks()
    ensures
        forall|k: int|
            0 <= k < catalog_bases().len() ==> key_mark(
                replace_dots(#[trigger] catalog_bases()[k]),
            ) == mark_of(k),
{
    reveal_strlit("gear-nightly-x86_64-unknown-linux-gnu");
    reveal_strlit("gear-nightly-aarch64-apple-darwin");
    reveal_strlit("gear-nightly-x86_64-apple-darwin");
    reveal_strlit("gear-nightly-x86_64-pc-windows-msvc");
    reveal_strlit("gear-v0.3.2-x86_64-unknown-linux-gnu");
    reveal_strlit("gear-v0.3.2-aarch64-apple-darwin");
    reveal_strlit("gear-v0.3.2-x86_64-apple-darwin");
    reveal_strlit("gear-v0.3.2-x86_64-pc-windows-msvc");
    reveal_strlit("gear-v0.3.1-x86_64-unknown-linux-gnu");
    reveal_strlit("gear-v0.3.1-aarch64-apple-darwin");
    reveal_strlit("gear-v0.3.1-x86_64-apple-darwin");
    reveal_strlit("gear-v0.3.1-x86_64-pc-windows-msvc");
    reveal_strlit("gear-v0.2.1-x86_64-unknown-linux-gnu");
    reveal_strlit("gear-v0.2.1-aarch64-apple-darwin");
    reveal_strlit("gear-v0.2.1-x86_64-apple-darwin");
    reveal_strlit("gear-v0.2.1-x86_64-pc-windows-msvc");
    reveal_strlit("gear-v0.2.0-x86_64-unknown-linux-gnu");
    reveal_strlit("gear-v0.2.0-aarch64-apple-darwin");
    reveal_strlit("gear-v0.2.0-x86_64-apple-darwin");
    reveal_strlit("gear-v0.2.0-x86_64-pc-windows-msvc");
    reveal_strlit("gear-v0.1.6-x86_64-unknown-linux-gnu");
    reveal_strlit("gear-v0.1.6-aarch64-apple-darwin");
    reveal_strlit("gear-v0.1.6-x86_64-apple-darwin");
    reveal_strlit("gear-v0.1.6-x86_64-pc-windows-msvc");
    reveal_strlit("gear-v0.1.5-x86_64-unknown-linux-gnu");
    reveal_strlit("gear-v0.1.5-aarch64-apple-darwin");
    reveal_strlit("gear-v0.1.5-x86_64-apple-darwin");
    reveal_strlit("gear-v0.1.5-x86_64-pc-windows-msvc");
    reveal_strlit("gear-v0.1.4-x86_64-unknown-linux-gnu");
    reveal_strlit("gear-v0.1.4-aarch64-apple-darwin");
    reveal_strlit("gear-v0.1.4-x86_64-apple-darwin");
    reveal_strlit("gear-v0.1.4-x86_64-pc-windows-msvc");
    reveal_strlit("gear-v0.1.3-x86_64-unknown-linux-gnu");
    reveal_strlit("gear-v0.1.3-aarch64-apple-darwin");
    reveal_strlit("gear-v0.1.3-x86_64-apple-darwin");
    reveal_strlit("gear-v0.1.3-x86_64-pc-windows-msvc");
    reveal_strlit("gear-v0.1.2-x86_64-unknown-linux-gnu");
    reveal_strlit("gear-v0.1.2-aarch64-apple-darwin");
    reveal_strlit("gear-v0.1.2-x86_64-apple-darwin");
    reveal_strlit("gear-v0.1.2-x86_64-pc-windows-msvc");
    reveal_strlit("gear-v0.1.1-x86_64-unknown-linux-gnu");
    reveal_strlit("gear-v0.1.1-aarch64-apple-darwin");
    reveal_strlit("gear-v0.1.1-x86_64-apple-darwin");
    reveal_strlit("gear-v0.1.1-x86_64-pc-windows-msvc");
    reveal_strlit("vara-testnet-x86_64-unknown-linux-gnu");
    reveal_strlit("vara-testnet-aarch64-apple-darwin");
    reveal_strlit("vara-testnet-x86_64-apple-darwin");
    reveal_strlit("vara-testnet-x86_64-pc-windows-msvc");
    reveal_strlit("vara-testnet-v1.2-x86_64-unknown-linux-gnu");
    reveal_strlit("vara-testnet-v1.2-aarch64-apple-darwin");
    reveal_strlit("vara-testnet-v1.2-x86_64-apple-darwin");
    reveal_strlit("vara-testnet-v1.2-x86_64-pc-windows-msvc");
    reveal_strlit("vara-testnet-v1.1-x86_64-unknown-linux-gnu");
    reveal_strlit("vara-testnet-v1.1-aarch64-apple-darwin");
    reveal_strlit("vara-testnet-v1.1-x86_64-apple-darwin");
    reveal_strlit("vara-testnet-v1.1-x86_64-pc-windows-msvc");
    reveal_strlit("vara-testnet-v1.0-x86_64-unknown-linux-gnu");
    reveal_strlit("vara-testnet-v1.0-aarch64-apple-darwin");
    reveal_strlit("vara-testnet-v1.0-x86_64-apple-darwin");
    reveal_strlit("vara-testnet-v1.0-x86_64-pc-windows-msvc");
    reveal_strlit("vara-debug-x86_64-unknown-linux-gnu");
    reveal_strlit("vara-debug-aarch64-apple-darwin");
    reveal_strlit("vara-debug-x86_64-apple-darwin");
    reveal_strlit("vara-debug-x86_64-pc-windows-msvc");
}

/// No two catalog entries share a mark.
#[verifier::rlimit(100)]
proof fn lemma_marks_injective()
    ensures
        forall|i: int, j: int| 0 <= i < j < 64 ==> mark_of(i) != mark_of(j),
{
}

/// The catalog's normalized base names are pairwise distinct, so no two
/// entries derive the same template keys.
pub proof fn lemma_catalog_bases_distinct()
    ensures
        forall|i: int, j: int|
            0 <= i < j < catalog_bases().len() ==> replace_dots(
                #[trigger] catalog_bases()[i],
            ) != replace_dots(#[trigger] catalog_bases()[j]),
{
    lemma_catalog_marks();
    lemma_marks_injective();
}

} // verus!
