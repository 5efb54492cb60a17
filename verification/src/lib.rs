mod catalog;
mod collect;
mod infomap;
mod laws;
mod numfmt;
mod render;
mod strutil;
mod timestamp;

pub use catalog::{catalog, catalog_bases, catalog_spec, lemma_catalog_bases_distinct};
pub use collect::{
    build_info, collect_info, collect_prefix, collect_step, spec_collect, trim_of, version_value,
    Reading, BYTES_PER_MB,
};
pub use infomap::InfoMap;
pub use laws::{
    lemma_artifact_bindings, lemma_catalog_artifact_bindings, lemma_rerun_differs_only_in_now,
};
pub use numfmt::{dec_rep, u64_to_string};
pub use render::{hb_accepts, index_template, render, rendered, template_spec};
pub use timestamp::{
    current_timestamp, format_utc_timestamp, is_digit, is_timestamp_text, lemma_timestamp_pattern,
    padded_dec, timestamp_seq, u64_to_padded_string, zeros,
};
pub use strutil::{
    artifact_file_name, derive_key, lemma_key_derivation, replace_dots, size_key, size_key_of,
    str_eq, version_file_name, version_key, version_key_of,
};
