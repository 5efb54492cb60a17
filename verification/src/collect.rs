use vstd::prelude::*;

use crate::catalog::{catalog, catalog_bases, catalog_spec};
use crate::infomap::InfoMap;
use crate::numfmt::{dec_rep, u64_to_string};
use crate::strutil::{size_key, size_key_of, version_key, version_key_of};
use crate::timestamp::{current_timestamp, timestamp_seq};

verus! {

/// How many bytes a megabyte has: sizes are reported in whole megabytes,
/// by floor division.
pub const BYTES_PER_MB: u64 = 1048576;

/// What one run observed about one expected artifact: the artifact file's
/// size in bytes (zero where the file is missing or unreadable), and the
/// text of its sidecar version file where that could be read.
pub struct Reading {
    pub size_bytes: u64,
    pub sidecar: Option<String>,
}

/// What `str::trim` leaves of `s`.
pub uninterp spec fn trim_of(s: Seq<char>) -> Seq<char>;

/// Relies on `str::trim`: it removes leading and trailing whitespace, so
/// the result depends on the characters alone, and an empty string stays
/// empty.
#[verifier::external_body]
fn trim_ws(s: &str) -> (r: &str)
    ensures
        r@ == trim_of(s@),
        s@.len() == 0 ==> r@.len() == 0,
{
    s.trim()
}

/// The version suffix recorded for a sidecar text `c`: its trimmed form,
/// wrapped in a leading space and parentheses for direct interpolation
/// after a name in the template.
pub open spec fn version_value(c: Seq<char>) -> Seq<char> {
    " ("@ + trim_of(c) + ")"@
}

/// One collection step: records the artifact's size in whole megabytes
/// under its size key, and, where the sidecar text trims to something
/// non-empty, the wrapped version suffix under its version key.
pub open spec fn collect_step(
    m: Map<Seq<char>, Seq<char>>,
    base: Seq<char>,
    r: Reading,
) -> Map<Seq<char>, Seq<char>> {
    let sized = m.insert(size_key(base), dec_rep((r.size_bytes / BYTES_PER_MB) as nat));
    match r.sidecar {
        Option::None => sized,
        Option::Some(c) => if trim_of(c@).len() > 0 {
            sized.insert(version_key(base), version_value(c@))
        } else {
            sized
        },
    }
}

/// The collection after the first `n` artifacts have been processed in
/// order, starting from an empty dataset.
pub open spec fn collect_prefix(bases: Seq<Seq<char>>, rs: Seq<Reading>, n: int) -> Map<
    Seq<char>,
    Seq<char>,
>
    decreases n,
{
    if n <= 0 {
        Map::empty()
    } else {
        collect_step(collect_prefix(bases, rs, n - 1), bases[n - 1], rs[n - 1])
    }
}

/// The whole collected dataset: every artifact processed in catalog order,
/// then the reserved `now` key bound to the timestamp text.
pub open spec fn spec_collect(bases: Seq<Seq<char>>, rs: Seq<Reading>, now: Seq<char>) -> Map<
    Seq<char>,
    Seq<char>,
> {
    collect_prefix(bases, rs, bases.len() as int).insert("now"@, now)
}

/// Builds the dataset for the given readings, one per catalog entry in
/// order, with `now` bound to the given timestamp text.
pub fn build_info(readings: &Vec<Reading>, now: &str) -> (m: InfoMap)
    requires
        readings@.len() == catalog_spec().len(),
    ensures
        m@ == spec_collect(catalog_bases(), readings@, now@),
{
    let cat = catalog();
    let mut m = InfoMap::new();
    let mut i: usize = 0;
    while i < cat.len()
        invariant
            cat@.len() == catalog_spec().len(),
            readings@.len() == catalog_spec().len(),
            forall|j: int|
                0 <= j < cat@.len() ==> (#[trigger] cat@[j]).0@ == catalog_spec()[j].0
                    && cat@[j].1@ == catalog_spec()[j].1,
            i <= cat@.len(),
            m@ == collect_prefix(catalog_bases(), readings@, i as int),
        decreases cat@.len() - i,
    {
        let base = cat[i].0;
        let r = &readings[i];
        m.insert(size_key_of(base), u64_to_string(r.size_bytes / BYTES_PER_MB));
        if let Some(content) = &r.sidecar {
            let t = trim_ws(content.as_str());
            if !t.is_empty() {
                let mut val = String::from_str(" (");
                val.append(t);
                val.append(")");
                proof {
                    assert(val@ =~= version_value(content@));
                }
                m.insert(version_key_of(base), val);
            }
        }
        proof {
            assert(catalog_bases()[i as int] == catalog_spec()[i as int].0);
            assert(m@ == collect_prefix(catalog_bases(), readings@, i + 1));
        }
        i = i + 1;
    }
    m.insert(String::from_str("now"), now.to_owned());
    m
}

/// Collects the dataset for the given readings and stamps it with the
/// current UTC time.
pub fn collect_info(readings: &Vec<Reading>) -> (m: InfoMap)
    requires
        readings@.len() == catalog_spec().len(),
    ensures
        exists|y: nat, mo: nat, d: nat, h: nat, mi: nat|
            1970 <= y && 1 <= mo <= 12 && 1 <= d <= 31 && h <= 23 && mi <= 59 && m@
                == spec_collect(catalog_bases(), readings@, #[trigger] timestamp_seq(
                y,
                mo,
                d,
                h,
                mi,
            )),
{
    let ts = current_timestamp();
    let m = build_info(readings, ts.as_str());
    proof {
        let (y, mo, d, h, mi): (nat, nat, nat, nat, nat) = choose|
            y: nat,
            mo: nat,
            d: nat,
            h: nat,
            mi: nat,
        |
            1970 <= y && 1 <= mo <= 12 && 1 <= d <= 31 && h <= 23 && mi <= 59 && ts@
                == #[trigger] timestamp_seq(y, mo, d, h, mi);
        assert(m@ == spec_collect(catalog_bases(), readings@, timestamp_seq(y, mo, d, h, mi)));
    }
    m
}

} // verus!
