use vstd::prelude::*;

use crate::infomap::InfoMap;

verus! {

/// What `handlebars` renders a template to, for the given key/value
/// data.
pub uninterp spec fn rendered(template: Seq<char>, data: Map<Seq<char>, Seq<char>>) -> Seq<char>;

/// Whether `handlebars` accepts a template for the given key/value data:
/// with the default registry, success and failure are decided by the
/// template text and the data alone.
pub uninterp spec fn hb_accepts(template: Seq<char>, data: Map<Seq<char>, Seq<char>>) -> bool;

/// Relies on `handlebars::Handlebars::render_template`: with the default
/// registry (strict mode off, no custom helpers) the output is a function
/// of the template text and the key/value data alone, later bindings of a
/// key shadowing earlier ones; a variable the data does not bind renders
/// as empty text rather than failing. Parsing and rendering consult
/// nothing but the template text and the data, so whether the call
/// succeeds is a function of the two as well.
#[verifier::external_body]
fn hb_render(template: &str, info: &InfoMap) -> (r: Result<String, String>)
    ensures
        r is Ok <==> hb_accepts(template@, info@),
        r matches Ok(s) ==> s@ == rendered(template@, info@),
{
    let data: std::collections::BTreeMap<String, String> = info.pairs.iter().cloned().collect();
    handlebars::Handlebars::new().render_template(template, &data).map_err(|e| e.to_string())
}

/// Renders `template` against `info` by key lookup. It succeeds exactly
/// when the template engine accepts the pair; a failure is reported as
/// the engine's message.
pub fn render(template: &str, info: &InfoMap) -> (r: Result<String, String>)
    ensures
        r is Ok <==> hb_accepts(template@, info@),
        r matches Ok(s) ==> s@ == rendered(template@, info@),
{
    hb_render(template, info)
}

/// The text of the bundled page template.
pub open spec fn template_spec() -> Seq<char> {
    "<!DOCTYPE html>
<html>
<head><meta charset=\"utf-8\"><title>Gear releases</title></head>
<body>
<h1>Gear releases</h1>
<ul>
<li><a href=\"gear-nightly-x86_64-unknown-linux-gnu.tar.xz\">gear-nightly-x86_64-unknown-linux-gnu.tar.xz</a>{{gear-nightly-x86_64-unknown-linux-gnu-version}} &ndash; {{gear-nightly-x86_64-unknown-linux-gnu-size}} MB</li>
<li><a href=\"gear-nightly-aarch64-apple-darwin.tar.xz\">gear-nightly-aarch64-apple-darwin.tar.xz</a>{{gear-nightly-aarch64-apple-darwin-version}} &ndash; {{gear-nightly-aarch64-apple-darwin-size}} MB</li>
<li><a href=\"gear-nightly-x86_64-apple-darwin.tar.xz\">gear-nightly-x86_64-apple-darwin.tar.xz</a>{{gear-nightly-x86_64-apple-darwin-version}} &ndash; {{gear-nightly-x86_64-apple-darwin-size}} MB</li>
<li><a href=\"gear-nightly-x86_64-pc-windows-msvc.zip\">gear-nightly-x86_64-pc-windows-msvc.zip</a>{{gear-nightly-x86_64-pc-windows-msvc-version}} &ndash; {{gear-nightly-x86_64-pc-windows-msvc-size}} MB</li>
<li><a href=\"gear-v0.3.2-x86_64-unknown-linux-gnu.tar.xz\">gear-v0.3.2-x86_64-unknown-linux-gnu.tar.xz</a>{{gear-v0-3-2-x86_64-unknown-linux-gnu-version}} &ndash; {{gear-v0-3-2-x86_64-unknown-linux-gnu-size}} MB</li>
<li><a href=\"gear-v0.3.2-aarch64-apple-darwin.tar.xz\">gear-v0.3.2-aarch64-apple-darwin.tar.xz</a>{{gear-v0-3-2-aarch64-apple-darwin-version}} &ndash; {{gear-v0-3-2-aarch64-apple-darwin-size}} MB</li>
<li><a href=\"gear-v0.3.2-x86_64-apple-darwin.tar.xz\">gear-v0.3.2-x86_64-apple-darwin.tar.xz</a>{{gear-v0-3-2-x86_64-apple-darwin-version}} &ndash; {{gear-v0-3-2-x86_64-apple-darwin-size}} MB</li>
<li><a href=\"gear-v0.3.2-x86_64-pc-windows-msvc.zip\">gear-v0.3.2-x86_64-pc-windows-msvc.zip</a>{{gear-v0-3-2-x86_64-pc-windows-msvc-version}} &ndash; {{gear-v0-3-2-x86_64-pc-windows-msvc-size}} MB</li>
<li><a href=\"gear-v0.3.1-x86_64-unknown-linux-gnu.tar.xz\">gear-v0.3.1-x86_64-unknown-linux-gnu.tar.xz</a>{{gear-v0-3-1-x86_64-unknown-linux-gnu-version}} &ndash; {{gear-v0-3-1-x86_64-unknown-linux-gnu-size}} MB</li>
<li><a href=\"gear-v0.3.1-aarch64-apple-darwin.tar.xz\">gear-v0.3.1-aarch64-apple-darwin.tar.xz</a>{{gear-v0-3-1-aarch64-apple-darwin-version}} &ndash; {{gear-v0-3-1-aarch64-apple-darwin-size}} MB</li>
<li><a href=\"gear-v0.3.1-x86_64-apple-darwin.tar.xz\">gear-v0.3.1-x86_64-apple-darwin.tar.xz</a>{{gear-v0-3-1-x86_64-apple-darwin-version}} &ndash; {{gear-v0-3-1-x86_64-apple-darwin-size}} MB</li>
<li><a href=\"gear-v0.3.1-x86_64-pc-windows-msvc.zip\">gear-v0.3.1-x86_64-pc-windows-msvc.zip</a>{{gear-v0-3-1-x86_64-pc-windows-msvc-version}} &ndash; {{gear-v0-3-1-x86_64-pc-windows-msvc-size}} MB</li>
<li><a href=\"gear-v0.2.1-x86_64-unknown-linux-gnu.tar.xz\">gear-v0.2.1-x86_64-unknown-linux-gnu.tar.xz</a>{{gear-v0-2-1-x86_64-unknown-linux-gnu-version}} &ndash; {{gear-v0-2-1-x86_64-unknown-linux-gnu-size}} MB</li>
<li><a href=\"gear-v0.2.1-aarch64-apple-darwin.tar.xz\">gear-v0.2.1-aarch64-apple-darwin.tar.xz</a>{{gear-v0-2-1-aarch64-apple-darwin-version}} &ndash; {{gear-v0-2-1-aarch64-apple-darwin-size}} MB</li>
<li><a href=\"gear-v0.2.1-x86_64-apple-darwin.tar.xz\">gear-v0.2.1-x86_64-apple-darwin.tar.xz</a>{{gear-v0-2-1-x86_64-apple-darwin-version}} &ndash; {{gear-v0-2-1-x86_64-apple-darwin-size}} MB</li>
<li><a href=\"gear-v0.2.1-x86_64-pc-windows-msvc.zip\">gear-v0.2.1-x86_64-pc-windows-msvc.zip</a>{{gear-v0-2-1-x86_64-pc-windows-msvc-version}} &ndash; {{gear-v0-2-1-x86_64-pc-windows-msvc-size}} MB</li>
<li><a href=\"gear-v0.2.0-x86_64-unknown-linux-gnu.tar.xz\">gear-v0.2.0-x86_64-unknown-linux-gnu.tar.xz</a>{{gear-v0-2-0-x86_64-unknown-linux-gnu-version}} &ndash; {{gear-v0-2-0-x86_64-unknown-linux-gnu-size}} MB</li>
<li><a href=\"gear-v0.2.0-aarch64-apple-darwin.tar.xz\">gear-v0.2.0-aarch64-apple-darwin.tar.xz</a>{{gear-v0-2-0-aarch64-apple-darwin-version}} &ndash; {{gear-v0-2-0-aarch64-apple-darwin-size}} MB</li>
<li><a href=\"gear-v0.2.0-x86_64-apple-darwin.tar.xz\">gear-v0.2.0-x86_64-apple-darwin.tar.xz</a>{{gear-v0-2-0-x86_64-apple-darwin-version}} &ndash; {{gear-v0-2-0-x86_64-apple-darwin-size}} MB</li>
<li><a href=\"gear-v0.2.0-x86_64-pc-windows-msvc.zip\">gear-v0.2.0-x86_64-pc-windows-msvc.zip</a>{{gear-v0-2-0-x86_64-pc-windows-msvc-version}} &ndash; {{gear-v0-2-0-x86_64-pc-windows-msvc-size}} MB</li>
<li><a href=\"gear-v0.1.6-x86_64-unknown-linux-gnu.tar.xz\">gear-v0.1.6-x86_64-unknown-linux-gnu.tar.xz</a>{{gear-v0-1-6-x86_64-unknown-linux-gnu-version}} &ndash; {{gear-v0-1-6-x86_64-unknown-linux-gnu-size}} MB</li>
<li><a href=\"gear-v0.1.6-aarch64-apple-darwin.tar.xz\">gear-v0.1.6-aarch64-apple-darwin.tar.xz</a>{{gear-v0-1-6-aarch64-apple-darwin-version}} &ndash; {{gear-v0-1-6-aarch64-apple-darwin-size}} MB</li>
<li><a href=\"gear-v0.1.6-x86_64-apple-darwin.tar.xz\">gear-v0.1.6-x86_64-apple-darwin.tar.xz</a>{{gear-v0-1-6-x86_64-apple-darwin-version}} &ndash; {{gear-v0-1-6-x86_64-apple-darwin-size}} MB</li>
<li><a href=\"gear-v0.1.6-x86_64-pc-windows-msvc.zip\">gear-v0.1.6-x86_64-pc-windows-msvc.zip</a>{{gear-v0-1-6-x86_64-pc-windows-msvc-version}} &ndash; {{gear-v0-1-6-x86_64-pc-windows-msvc-size}} MB</li>
<li><a href=\"gear-v0.1.5-x86_64-unknown-linux-gnu.tar.xz\">gear-v0.1.5-x86_64-unknown-linux-gnu.tar.xz</a>{{gear-v0-1-5-x86_64-unknown-linux-gnu-version}} &ndash; {{gear-v0-1-5-x86_64-unknown-linux-gnu-size}} MB</li>
<li><a href=\"gear-v0.1.5-aarch64-apple-darwin.tar.xz\">gear-v0.1.5-aarch64-apple-darwin.tar.xz</a>{{gear-v0-1-5-aarch64-apple-darwin-version}} &ndash; {{gear-v0-1-5-aarch64-apple-darwin-size}} MB</li>
<li><a href=\"gear-v0.1.5-x86_64-apple-darwin.tar.xz\">gear-v0.1.5-x86_64-apple-darwin.tar.xz</a>{{gear-v0-1-5-x86_64-apple-darwin-version}} &ndash; {{gear-v0-1-5-x86_64-apple-darwin-size}} MB</li>
<li><a href=\"gear-v0.1.5-x86_64-pc-windows-msvc.zip\">gear-v0.1.5-x86_64-pc-windows-msvc.zip</a>{{gear-v0-1-5-x86_64-pc-windows-msvc-version}} &ndash; {{gear-v0-1-5-x86_64-pc-windows-msvc-size}} MB</li>
<li><a href=\"gear-v0.1.4-x86_64-unknown-linux-gnu.tar.xz\">gear-v0.1.4-x86_64-unknown-linux-gnu.tar.xz</a>{{gear-v0-1-4-x86_64-unknown-linux-gnu-version}} &ndash; {{gear-v0-1-4-x86_64-unknown-linux-gnu-size}} MB</li>
<li><a href=\"gear-v0.1.4-aarch64-apple-darwin.tar.xz\">gear-v0.1.4-aarch64-apple-darwin.tar.xz</a>{{gear-v0-1-4-aarch64-apple-darwin-version}} &ndash; {{gear-v0-1-4-aarch64-apple-darwin-size}} MB</li>
<li><a href=\"gear-v0.1.4-x86_64-apple-darwin.tar.xz\">gear-v0.1.4-x86_64-apple-darwin.tar.xz</a>{{gear-v0-1-4-x86_64-apple-darwin-version}} &ndash; {{gear-v0-1-4-x86_64-apple-darwin-size}} MB</li>
<li><a href=\"gear-v0.1.4-x86_64-pc-windows-msvc.zip\">gear-v0.1.4-x86_64-pc-windows-msvc.zip</a>{{gear-v0-1-4-x86_64-pc-windows-msvc-version}} &ndash; {{gear-v0-1-4-x86_64-pc-windows-msvc-size}} MB</li>
<li><a href=\"gear-v0.1.3-x86_64-unknown-linux-gnu.tar.xz\">gear-v0.1.3-x86_64-unknown-linux-gnu.tar.xz</a>{{gear-v0-1-3-x86_64-unknown-linux-gnu-version}} &ndash; {{gear-v0-1-3-x86_64-unknown-linux-gnu-size}} MB</li>
<li><a href=\"gear-v0.1.3-aarch64-apple-darwin.tar.xz\">gear-v0.1.3-aarch64-apple-darwin.tar.xz</a>{{gear-v0-1-3-aarch64-apple-darwin-version}} &ndash; {{gear-v0-1-3-aarch64-apple-darwin-size}} MB</li>
<li><a href=\"gear-v0.1.3-x86_64-apple-darwin.tar.xz\">gear-v0.1.3-x86_64-apple-darwin.tar.xz</a>{{gear-v0-1-3-x86_64-apple-darwin-version}} &ndash; {{gear-v0-1-3-x86_64-apple-darwin-size}} MB</li>
<li><a href=\"gear-v0.1.3-x86_64-pc-windows-msvc.zip\">gear-v0.1.3-x86_64-pc-windows-msvc.zip</a>{{gear-v0-1-3-x86_64-pc-windows-msvc-version}} &ndash; {{gear-v0-1-3-x86_64-pc-windows-msvc-size}} MB</li>
<li><a href=\"gear-v0.1.2-x86_64-unknown-linux-gnu.tar.xz\">gear-v0.1.2-x86_64-unknown-linux-gnu.tar.xz</a>{{gear-v0-1-2-x86_64-unknown-linux-gnu-version}} &ndash; {{gear-v0-1-2-x86_64-unknown-linux-gnu-size}} MB</li>
<li><a href=\"gear-v0.1.2-aarch64-apple-darwin.tar.xz\">gear-v0.1.2-aarch64-apple-darwin.tar.xz</a>{{gear-v0-1-2-aarch64-apple-darwin-version}} &ndash; {{gear-v0-1-2-aarch64-apple-darwin-size}} MB</li>
<li><a href=\"gear-v0.1.2-x86_64-apple-darwin.tar.xz\">gear-v0.1.2-x86_64-apple-darwin.tar.xz</a>{{gear-v0-1-2-x86_64-apple-darwin-version}} &ndash; {{gear-v0-1-2-x86_64-apple-darwin-size}} MB</li>
<li><a href=\"gear-v0.1.2-x86_64-pc-windows-msvc.zip\">gear-v0.1.2-x86_64-pc-windows-msvc.zip</a>{{gear-v0-1-2-x86_64-pc-windows-msvc-version}} &ndash; {{gear-v0-1-2-x86_64-pc-windows-msvc-size}} MB</li>
<li><a href=\"gear-v0.1.1-x86_64-unknown-linux-gnu.tar.xz\">gear-v0.1.1-x86_64-unknown-linux-gnu.tar.xz</a>{{gear-v0-1-1-x86_64-unknown-linux-gnu-version}} &ndash; {{gear-v0-1-1-x86_64-unknown-linux-gnu-size}} MB</li>
<li><a href=\"gear-v0.1.1-aarch64-apple-darwin.tar.xz\">gear-v0.1.1-aarch64-apple-darwin.tar.xz</a>{{gear-v0-1-1-aarch64-apple-darwin-version}} &ndash; {{gear-v0-1-1-aarch64-apple-darwin-size}} MB</li>
<li><a href=\"gear-v0.1.1-x86_64-apple-darwin.tar.xz\">gear-v0.1.1-x86_64-apple-darwin.tar.xz</a>{{gear-v0-1-1-x86_64-apple-darwin-version}} &ndash; {{gear-v0-1-1-x86_64-apple-darwin-size}} MB</li>
<li><a href=\"gear-v0.1.1-x86_64-pc-windows-msvc.zip\">gear-v0.1.1-x86_64-pc-windows-msvc.zip</a>{{gear-v0-1-1-x86_64-pc-windows-msvc-version}} &ndash; {{gear-v0-1-1-x86_64-pc-windows-msvc-size}} MB</li>
<li><a href=\"vara-testnet-x86_64-unknown-linux-gnu.tar.xz\">vara-testnet-x86_64-unknown-linux-gnu.tar.xz</a>{{vara-testnet-x86_64-unknown-linux-gnu-version}} &ndash; {{vara-testnet-x86_64-unknown-linux-gnu-size}} MB</li>
<li><a href=\"vara-testnet-aarch64-apple-darwin.tar.xz\">vara-testnet-aarch64-apple-darwin.tar.xz</a>{{vara-testnet-aarch64-apple-darwin-version}} &ndash; {{vara-testnet-aarch64-apple-darwin-size}} MB</li>
<li><a href=\"vara-testnet-x86_64-apple-darwin.tar.xz\">vara-testnet-x86_64-apple-darwin.tar.xz</a>{{vara-testnet-x86_64-apple-darwin-version}} &ndash; {{vara-testnet-x86_64-apple-darwin-size}} MB</li>
<li><a href=\"vara-testnet-x86_64-pc-windows-msvc.zip\">vara-testnet-x86_64-pc-windows-msvc.zip</a>{{vara-testnet-x86_64-pc-windows-msvc-version}} &ndash; {{vara-testnet-x86_64-pc-windows-msvc-size}} MB</li>
<li><a href=\"vara-testnet-v1.2-x86_64-unknown-linux-gnu.tar.xz\">vara-testnet-v1.2-x86_64-unknown-linux-gnu.tar.xz</a>{{vara-testnet-v1-2-x86_64-unknown-linux-gnu-version}} &ndash; {{vara-testnet-v1-2-x86_64-unknown-linux-gnu-size}} MB</li>
<li><a href=\"vara-testnet-v1.2-aarch64-apple-darwin.tar.xz\">vara-testnet-v1.2-aarch64-apple-darwin.tar.xz</a>{{vara-testnet-v1-2-aarch64-apple-darwin-version}} &ndash; {{vara-testnet-v1-2-aarch64-apple-darwin-size}} MB</li>
<li><a href=\"vara-testnet-v1.2-x86_64-apple-darwin.tar.xz\">vara-testnet-v1.2-x86_64-apple-darwin.tar.xz</a>{{vara-testnet-v1-2-x86_64-apple-darwin-version}} &ndash; {{vara-testnet-v1-2-x86_64-apple-darwin-size}} MB</li>
<li><a href=\"vara-testnet-v1.2-x86_64-pc-windows-msvc.zip\">vara-testnet-v1.2-x86_64-pc-windows-msvc.zip</a>{{vara-testnet-v1-2-x86_64-pc-windows-msvc-version}} &ndash; {{vara-testnet-v1-2-x86_64-pc-windows-msvc-size}} MB</li>
<li><a href=\"vara-testnet-v1.1-x86_64-unknown-linux-gnu.tar.xz\">vara-testnet-v1.1-x86_64-unknown-linux-gnu.tar.xz</a>{{vara-testnet-v1-1-x86_64-unknown-linux-gnu-version}} &ndash; {{vara-testnet-v1-1-x86_64-unknown-linux-gnu-size}} MB</li>
<li><a href=\"vara-testnet-v1.1-aarch64-apple-darwin.tar.xz\">vara-testnet-v1.1-aarch64-apple-darwin.tar.xz</a>{{vara-testnet-v1-1-aarch64-apple-darwin-version}} &ndash; {{vara-testnet-v1-1-aarch64-apple-darwin-size}} MB</li>
<li><a href=\"vara-testnet-v1.1-x86_64-apple-darwin.tar.xz\">vara-testnet-v1.1-x86_64-apple-darwin.tar.xz</a>{{vara-testnet-v1-1-x86_64-apple-darwin-version}} &ndash; {{vara-testnet-v1-1-x86_64-apple-darwin-size}} MB</li>
<li><a href=\"vara-testnet-v1.1-x86_64-pc-windows-msvc.zip\">vara-testnet-v1.1-x86_64-pc-windows-msvc.zip</a>{{vara-testnet-v1-1-x86_64-pc-windows-msvc-version}} &ndash; {{vara-testnet-v1-1-x86_64-pc-windows-msvc-size}} MB</li>
<li><a href=\"vara-testnet-v1.0-x86_64-unknown-linux-gnu.tar.xz\">vara-testnet-v1.0-x86_64-unknown-linux-gnu.tar.xz</a>{{vara-testnet-v1-0-x86_64-unknown-linux-gnu-version}} &ndash; {{vara-testnet-v1-0-x86_64-unknown-linux-gnu-size}} MB</li>
<li><a href=\"vara-testnet-v1.0-aarch64-apple-darwin.tar.xz\">vara-testnet-v1.0-aarch64-apple-darwin.tar.xz</a>{{vara-testnet-v1-0-aarch64-apple-darwin-version}} &ndash; {{vara-testnet-v1-0-aarch64-apple-darwin-size}} MB</li>
<li><a href=\"vara-testnet-v1.0-x86_64-apple-darwin.tar.xz\">vara-testnet-v1.0-x86_64-apple-darwin.tar.xz</a>{{vara-testnet-v1-0-x86_64-apple-darwin-version}} &ndash; {{vara-testnet-v1-0-x86_64-apple-darwin-size}} MB</li>
<li><a href=\"vara-testnet-v1.0-x86_64-pc-windows-msvc.zip\">vara-testnet-v1.0-x86_64-pc-windows-msvc.zip</a>{{vara-testnet-v1-0-x86_64-pc-windows-msvc-version}} &ndash; {{vara-testnet-v1-0-x86_64-pc-windows-msvc-size}} MB</li>
<li><a href=\"vara-debug-x86_64-unknown-linux-gnu.tar.xz\">vara-debug-x86_64-unknown-linux-gnu.tar.xz</a>{{vara-debug-x86_64-unknown-linux-gnu-version}} &ndash; {{vara-debug-x86_64-unknown-linux-gnu-size}} MB</li>
<li><a href=\"vara-debug-aarch64-apple-darwin.tar.xz\">vara-debug-aarch64-apple-darwin.tar.xz</a>{{vara-debug-aarch64-apple-darwin-version}} &ndash; {{vara-debug-aarch64-apple-darwin-size}} MB</li>
<li><a href=\"vara-debug-x86_64-apple-darwin.tar.xz\">vara-debug-x86_64-apple-darwin.tar.xz</a>{{vara-debug-x86_64-apple-darwin-version}} &ndash; {{vara-debug-x86_64-apple-darwin-size}} MB</li>
<li><a href=\"vara-debug-x86_64-pc-windows-msvc.zip\">vara-debug-x86_64-pc-windows-msvc.zip</a>{{vara-debug-x86_64-pc-windows-msvc-version}} &ndash; {{vara-debug-x86_64-pc-windows-msvc-size}} MB</li>
</ul>
<p>Updated {{now}}</p>
</body>
</html>
"@
}

/// The bundled page template: one entry per catalog artifact, each
/// referencing that artifact's size and version variables, and the
/// reserved `now` variable.
pub fn index_template() -> (t: &'static str)
    ensures
        t@ == template_spec(),
{
    "<!DOCTYPE html>
<html>
<head><meta charset=\"utf-8\"><title>Gear releases</title></head>
<body>
<h1>Gear releases</h1>
<ul>
<li><a href=\"gear-nightly-x86_64-unknown-linux-gnu.tar.xz\">gear-nightly-x86_64-unknown-linux-gnu.tar.xz</a>{{gear-nightly-x86_64-unknown-linux-gnu-version}} &ndash; {{gear-nightly-x86_64-unknown-linux-gnu-size}} MB</li>
<li><a href=\"gear-nightly-aarch64-apple-darwin.tar.xz\">gear-nightly-aarch64-apple-darwin.tar.xz</a>{{gear-nightly-aarch64-apple-darwin-version}} &ndash; {{gear-nightly-aarch64-apple-darwin-size}} MB</li>
<li><a href=\"gear-nightly-x86_64-apple-darwin.tar.xz\">gear-nightly-x86_64-apple-darwin.tar.xz</a>{{gear-nightly-x86_64-apple-darwin-version}} &ndash; {{gear-nightly-x86_64-apple-darwin-size}} MB</li>
<li><a href=\"gear-nightly-x86_64-pc-windows-msvc.zip\">gear-nightly-x86_64-pc-windows-msvc.zip</a>{{gear-nightly-x86_64-pc-windows-msvc-version}} &ndash; {{gear-nightly-x86_64-pc-windows-msvc-size}} MB</li>
<li><a href=\"gear-v0.3.2-x86_64-unknown-linux-gnu.tar.xz\">gear-v0.3.2-x86_64-unknown-linux-gnu.tar.xz</a>{{gear-v0-3-2-x86_64-unknown-linux-gnu-version}} &ndash; {{gear-v0-3-2-x86_64-unknown-linux-gnu-size}} MB</li>
<li><a href=\"gear-v0.3.2-aarch64-apple-darwin.tar.xz\">gear-v0.3.2-aarch64-apple-darwin.tar.xz</a>{{gear-v0-3-2-aarch64-apple-darwin-version}} &ndash; {{gear-v0-3-2-aarch64-apple-darwin-size}} MB</li>
<li><a href=\"gear-v0.3.2-x86_64-apple-darwin.tar.xz\">gear-v0.3.2-x86_64-apple-darwin.tar.xz</a>{{gear-v0-3-2-x86_64-apple-darwin-version}} &ndash; {{gear-v0-3-2-x86_64-apple-darwin-size}} MB</li>
<li><a href=\"gear-v0.3.2-x86_64-pc-windows-msvc.zip\">gear-v0.3.2-x86_64-pc-windows-msvc.zip</a>{{gear-v0-3-2-x86_64-pc-windows-msvc-version}} &ndash; {{gear-v0-3-2-x86_64-pc-windows-msvc-size}} MB</li>
<li><a href=\"gear-v0.3.1-x86_64-unknown-linux-gnu.tar.xz\">gear-v0.3.1-x86_64-unknown-linux-gnu.tar.xz</a>{{gear-v0-3-1-x86_64-unknown-linux-gnu-version}} &ndash; {{gear-v0-3-1-x86_64-unknown-linux-gnu-size}} MB</li>
<li><a href=\"gear-v0.3.1-aarch64-apple-darwin.tar.xz\">gear-v0.3.1-aarch64-apple-darwin.tar.xz</a>{{gear-v0-3-1-aarch64-apple-darwin-version}} &ndash; {{gear-v0-3-1-aarch64-apple-darwin-size}} MB</li>
<li><a href=\"gear-v0.3.1-x86_64-apple-darwin.tar.xz\">gear-v0.3.1-x86_64-apple-darwin.tar.xz</a>{{gear-v0-3-1-x86_64-apple-darwin-version}} &ndash; {{gear-v0-3-1-x86_64-apple-darwin-size}} MB</li>
<li><a href=\"gear-v0.3.1-x86_64-pc-windows-msvc.zip\">gear-v0.3.1-x86_64-pc-windows-msvc.zip</a>{{gear-v0-3-1-x86_64-pc-windows-msvc-version}} &ndash; {{gear-v0-3-1-x86_64-pc-windows-msvc-size}} MB</li>
<li><a href=\"gear-v0.2.1-x86_64-unknown-linux-gnu.tar.xz\">gear-v0.2.1-x86_64-unknown-linux-gnu.tar.xz</a>{{gear-v0-2-1-x86_64-unknown-linux-gnu-version}} &ndash; {{gear-v0-2-1-x86_64-unknown-linux-gnu-size}} MB</li>
<li><a href=\"gear-v0.2.1-aarch64-apple-darwin.tar.xz\">gear-v0.2.1-aarch64-apple-darwin.tar.xz</a>{{gear-v0-2-1-aarch64-apple-darwin-version}} &ndash; {{gear-v0-2-1-aarch64-apple-darwin-size}} MB</li>
<li><a href=\"gear-v0.2.1-x86_64-apple-darwin.tar.xz\">gear-v0.2.1-x86_64-apple-darwin.tar.xz</a>{{gear-v0-2-1-x86_64-apple-darwin-version}} &ndash; {{gear-v0-2-1-x86_64-apple-darwin-size}} MB</li>
<li><a href=\"gear-v0.2.1-x86_64-pc-windows-msvc.zip\">gear-v0.2.1-x86_64-pc-windows-msvc.zip</a>{{gear-v0-2-1-x86_64-pc-windows-msvc-version}} &ndash; {{gear-v0-2-1-x86_64-pc-windows-msvc-size}} MB</li>
<li><a href=\"gear-v0.2.0-x86_64-unknown-linux-gnu.tar.xz\">gear-v0.2.0-x86_64-unknown-linux-gnu.tar.xz</a>{{gear-v0-2-0-x86_64-unknown-linux-gnu-version}} &ndash; {{gear-v0-2-0-x86_64-unknown-linux-gnu-size}} MB</li>
<li><a href=\"gear-v0.2.0-aarch64-apple-darwin.tar.xz\">gear-v0.2.0-aarch64-apple-darwin.tar.xz</a>{{gear-v0-2-0-aarch64-apple-darwin-version}} &ndash; {{gear-v0-2-0-aarch64-apple-darwin-size}} MB</li>
<li><a href=\"gear-v0.2.0-x86_64-apple-darwin.tar.xz\">gear-v0.2.0-x86_64-apple-darwin.tar.xz</a>{{gear-v0-2-0-x86_64-apple-darwin-version}} &ndash; {{gear-v0-2-0-x86_64-apple-darwin-size}} MB</li>
<li><a href=\"gear-v0.2.0-x86_64-pc-windows-msvc.zip\">gear-v0.2.0-x86_64-pc-windows-msvc.zip</a>{{gear-v0-2-0-x86_64-pc-windows-msvc-version}} &ndash; {{gear-v0-2-0-x86_64-pc-windows-msvc-size}} MB</li>
<li><a href=\"gear-v0.1.6-x86_64-unknown-linux-gnu.tar.xz\">gear-v0.1.6-x86_64-unknown-linux-gnu.tar.xz</a>{{gear-v0-1-6-x86_64-unknown-linux-gnu-version}} &ndash; {{gear-v0-1-6-x86_64-unknown-linux-gnu-size}} MB</li>
<li><a href=\"gear-v0.1.6-aarch64-apple-darwin.tar.xz\">gear-v0.1.6-aarch64-apple-darwin.tar.xz</a>{{gear-v0-1-6-aarch64-apple-darwin-version}} &ndash; {{gear-v0-1-6-aarch64-apple-darwin-size}} MB</li>
<li><a href=\"gear-v0.1.6-x86_64-apple-darwin.tar.xz\">gear-v0.1.6-x86_64-apple-darwin.tar.xz</a>{{gear-v0-1-6-x86_64-apple-darwin-version}} &ndash; {{gear-v0-1-6-x86_64-apple-darwin-size}} MB</li>
<li><a href=\"gear-v0.1.6-x86_64-pc-windows-msvc.zip\">gear-v0.1.6-x86_64-pc-windows-msvc.zip</a>{{gear-v0-1-6-x86_64-pc-windows-msvc-version}} &ndash; {{gear-v0-1-6-x86_64-pc-windows-msvc-size}} MB</li>
<li><a href=\"gear-v0.1.5-x86_64-unknown-linux-gnu.tar.xz\">gear-v0.1.5-x86_64-unknown-linux-gnu.tar.xz</a>{{gear-v0-1-5-x86_64-unknown-linux-gnu-version}} &ndash; {{gear-v0-1-5-x86_64-unknown-linux-gnu-size}} MB</li>
<li><a href=\"gear-v0.1.5-aarch64-apple-darwin.tar.xz\">gear-v0.1.5-aarch64-apple-darwin.tar.xz</a>{{gear-v0-1-5-aarch64-apple-darwin-version}} &ndash; {{gear-v0-1-5-aarch64-apple-darwin-size}} MB</li>
<li><a href=\"gear-v0.1.5-x86_64-apple-darwin.tar.xz\">gear-v0.1.5-x86_64-apple-darwin.tar.xz</a>{{gear-v0-1-5-x86_64-apple-darwin-version}} &ndash; {{gear-v0-1-5-x86_64-apple-darwin-size}} MB</li>
<li><a href=\"gear-v0.1.5-x86_64-pc-windows-msvc.zip\">gear-v0.1.5-x86_64-pc-windows-msvc.zip</a>{{gear-v0-1-5-x86_64-pc-windows-msvc-version}} &ndash; {{gear-v0-1-5-x86_64-pc-windows-msvc-size}} MB</li>
<li><a href=\"gear-v0.1.4-x86_64-unknown-linux-gnu.tar.xz\">gear-v0.1.4-x86_64-unknown-linux-gnu.tar.xz</a>{{gear-v0-1-4-x86_64-unknown-linux-gnu-version}} &ndash; {{gear-v0-1-4-x86_64-unknown-linux-gnu-size}} MB</li>
<li><a href=\"gear-v0.1.4-aarch64-apple-darwin.tar.xz\">gear-v0.1.4-aarch64-apple-darwin.tar.xz</a>{{gear-v0-1-4-aarch64-apple-darwin-version}} &ndash; {{gear-v0-1-4-aarch64-apple-darwin-size}} MB</li>
<li><a href=\"gear-v0.1.4-x86_64-apple-darwin.tar.xz\">gear-v0.1.4-x86_64-apple-darwin.tar.xz</a>{{gear-v0-1-4-x86_64-apple-darwin-version}} &ndash; {{gear-v0-1-4-x86_64-apple-darwin-size}} MB</li>
<li><a href=\"gear-v0.1.4-x86_64-pc-windows-msvc.zip\">gear-v0.1.4-x86_64-pc-windows-msvc.zip</a>{{gear-v0-1-4-x86_64-pc-windows-msvc-version}} &ndash; {{gear-v0-1-4-x86_64-pc-windows-msvc-size}} MB</li>
<li><a href=\"gear-v0.1.3-x86_64-unknown-linux-gnu.tar.xz\">gear-v0.1.3-x86_64-unknown-linux-gnu.tar.xz</a>{{gear-v0-1-3-x86_64-unknown-linux-gnu-version}} &ndash; {{gear-v0-1-3-x86_64-unknown-linux-gnu-size}} MB</li>
<li><a href=\"gear-v0.1.3-aarch64-apple-darwin.tar.xz\">gear-v0.1.3-aarch64-apple-darwin.tar.xz</a>{{gear-v0-1-3-aarch64-apple-darwin-version}} &ndash; {{gear-v0-1-3-aarch64-apple-darwin-size}} MB</li>
<li><a href=\"gear-v0.1.3-x86_64-apple-darwin.tar.xz\">gear-v0.1.3-x86_64-apple-darwin.tar.xz</a>{{gear-v0-1-3-x86_64-apple-darwin-version}} &ndash; {{gear-v0-1-3-x86_64-apple-darwin-size}} MB</li>
<li><a href=\"gear-v0.1.3-x86_64-pc-windows-msvc.zip\">gear-v0.1.3-x86_64-pc-windows-msvc.zip</a>{{gear-v0-1-3-x86_64-pc-windows-msvc-version}} &ndash; {{gear-v0-1-3-x86_64-pc-windows-msvc-size}} MB</li>
<li><a href=\"gear-v0.1.2-x86_64-unknown-linux-gnu.tar.xz\">gear-v0.1.2-x86_64-unknown-linux-gnu.tar.xz</a>{{gear-v0-1-2-x86_64-unknown-linux-gnu-version}} &ndash; {{gear-v0-1-2-x86_64-unknown-linux-gnu-size}} MB</li>
<li><a href=\"gear-v0.1.2-aarch64-apple-darwin.tar.xz\">gear-v0.1.2-aarch64-apple-darwin.tar.xz</a>{{gear-v0-1-2-aarch64-apple-darwin-version}} &ndash; {{gear-v0-1-2-aarch64-apple-darwin-size}} MB</li>
<li><a href=\"gear-v0.1.2-x86_64-apple-darwin.tar.xz\">gear-v0.1.2-x86_64-apple-darwin.tar.xz</a>{{gear-v0-1-2-x86_64-apple-darwin-version}} &ndash; {{gear-v0-1-2-x86_64-apple-darwin-size}} MB</li>
<li><a href=\"gear-v0.1.2-x86_64-pc-windows-msvc.zip\">gear-v0.1.2-x86_64-pc-windows-msvc.zip</a>{{gear-v0-1-2-x86_64-pc-windows-msvc-version}} &ndash; {{gear-v0-1-2-x86_64-pc-windows-msvc-size}} MB</li>
<li><a href=\"gear-v0.1.1-x86_64-unknown-linux-gnu.tar.xz\">gear-v0.1.1-x86_64-unknown-linux-gnu.tar.xz</a>{{gear-v0-1-1-x86_64-unknown-linux-gnu-version}} &ndash; {{gear-v0-1-1-x86_64-unknown-linux-gnu-size}} MB</li>
<li><a href=\"gear-v0.1.1-aarch64-apple-darwin.tar.xz\">gear-v0.1.1-aarch64-apple-darwin.tar.xz</a>{{gear-v0-1-1-aarch64-apple-darwin-version}} &ndash; {{gear-v0-1-1-aarch64-apple-darwin-size}} MB</li>
<li><a href=\"gear-v0.1.1-x86_64-apple-darwin.tar.xz\">gear-v0.1.1-x86_64-apple-darwin.tar.xz</a>{{gear-v0-1-1-x86_64-apple-darwin-version}} &ndash; {{gear-v0-1-1-x86_64-apple-darwin-size}} MB</li>
<li><a href=\"gear-v0.1.1-x86_64-pc-windows-msvc.zip\">gear-v0.1.1-x86_64-pc-windows-msvc.zip</a>{{gear-v0-1-1-x86_64-pc-windows-msvc-version}} &ndash; {{gear-v0-1-1-x86_64-pc-windows-msvc-size}} MB</li>
<li><a href=\"vara-testnet-x86_64-unknown-linux-gnu.tar.xz\">vara-testnet-x86_64-unknown-linux-gnu.tar.xz</a>{{vara-testnet-x86_64-unknown-linux-gnu-version}} &ndash; {{vara-testnet-x86_64-unknown-linux-gnu-size}} MB</li>
<li><a href=\"vara-testnet-aarch64-apple-darwin.tar.xz\">vara-testnet-aarch64-apple-darwin.tar.xz</a>{{vara-testnet-aarch64-apple-darwin-version}} &ndash; {{vara-testnet-aarch64-apple-darwin-size}} MB</li>
<li><a href=\"vara-testnet-x86_64-apple-darwin.tar.xz\">vara-testnet-x86_64-apple-darwin.tar.xz</a>{{vara-testnet-x86_64-apple-darwin-version}} &ndash; {{vara-testnet-x86_64-apple-darwin-size}} MB</li>
<li><a href=\"vara-testnet-x86_64-pc-windows-msvc.zip\">vara-testnet-x86_64-pc-windows-msvc.zip</a>{{vara-testnet-x86_64-pc-windows-msvc-version}} &ndash; {{vara-testnet-x86_64-pc-windows-msvc-size}} MB</li>
<li><a href=\"vara-testnet-v1.2-x86_64-unknown-linux-gnu.tar.xz\">vara-testnet-v1.2-x86_64-unknown-linux-gnu.tar.xz</a>{{vara-testnet-v1-2-x86_64-unknown-linux-gnu-version}} &ndash; {{vara-testnet-v1-2-x86_64-unknown-linux-gnu-size}} MB</li>
<li><a href=\"vara-testnet-v1.2-aarch64-apple-darwin.tar.xz\">vara-testnet-v1.2-aarch64-apple-darwin.tar.xz</a>{{vara-testnet-v1-2-aarch64-apple-darwin-version}} &ndash; {{vara-testnet-v1-2-aarch64-apple-darwin-size}} MB</li>
<li><a href=\"vara-testnet-v1.2-x86_64-apple-darwin.tar.xz\">vara-testnet-v1.2-x86_64-apple-darwin.tar.xz</a>{{vara-testnet-v1-2-x86_64-apple-darwin-version}} &ndash; {{vara-testnet-v1-2-x86_64-apple-darwin-size}} MB</li>
<li><a href=\"vara-testnet-v1.2-x86_64-pc-windows-msvc.zip\">vara-testnet-v1.2-x86_64-pc-windows-msvc.zip</a>{{vara-testnet-v1-2-x86_64-pc-windows-msvc-version}} &ndash; {{vara-testnet-v1-2-x86_64-pc-windows-msvc-size}} MB</li>
<li><a href=\"vara-testnet-v1.1-x86_64-unknown-linux-gnu.tar.xz\">vara-testnet-v1.1-x86_64-unknown-linux-gnu.tar.xz</a>{{vara-testnet-v1-1-x86_64-unknown-linux-gnu-version}} &ndash; {{vara-testnet-v1-1-x86_64-unknown-linux-gnu-size}} MB</li>
<li><a href=\"vara-testnet-v1.1-aarch64-apple-darwin.tar.xz\">vara-testnet-v1.1-aarch64-apple-darwin.tar.xz</a>{{vara-testnet-v1-1-aarch64-apple-darwin-version}} &ndash; {{vara-testnet-v1-1-aarch64-apple-darwin-size}} MB</li>
<li><a href=\"vara-testnet-v1.1-x86_64-apple-darwin.tar.xz\">vara-testnet-v1.1-x86_64-apple-darwin.tar.xz</a>{{vara-testnet-v1-1-x86_64-apple-darwin-version}} &ndash; {{vara-testnet-v1-1-x86_64-apple-darwin-size}} MB</li>
<li><a href=\"vara-testnet-v1.1-x86_64-pc-windows-msvc.zip\">vara-testnet-v1.1-x86_64-pc-windows-msvc.zip</a>{{vara-testnet-v1-1-x86_64-pc-windows-msvc-version}} &ndash; {{vara-testnet-v1-1-x86_64-pc-windows-msvc-size}} MB</li>
<li><a href=\"vara-testnet-v1.0-x86_64-unknown-linux-gnu.tar.xz\">vara-testnet-v1.0-x86_64-unknown-linux-gnu.tar.xz</a>{{vara-testnet-v1-0-x86_64-unknown-linux-gnu-version}} &ndash; {{vara-testnet-v1-0-x86_64-unknown-linux-gnu-size}} MB</li>
<li><a href=\"vara-testnet-v1.0-aarch64-apple-darwin.tar.xz\">vara-testnet-v1.0-aarch64-apple-darwin.tar.xz</a>{{vara-testnet-v1-0-aarch64-apple-darwin-version}} &ndash; {{vara-testnet-v1-0-aarch64-apple-darwin-size}} MB</li>
<li><a href=\"vara-testnet-v1.0-x86_64-apple-darwin.tar.xz\">vara-testnet-v1.0-x86_64-apple-darwin.tar.xz</a>{{vara-testnet-v1-0-x86_64-apple-darwin-version}} &ndash; {{vara-testnet-v1-0-x86_64-apple-darwin-size}} MB</li>
<li><a href=\"vara-testnet-v1.0-x86_64-pc-windows-msvc.zip\">vara-testnet-v1.0-x86_64-pc-windows-msvc.zip</a>{{vara-testnet-v1-0-x86_64-pc-windows-msvc-version}} &ndash; {{vara-testnet-v1-0-x86_64-pc-windows-msvc-size}} MB</li>
<li><a href=\"vara-debug-x86_64-unknown-linux-gnu.tar.xz\">vara-debug-x86_64-unknown-linux-gnu.tar.xz</a>{{vara-debug-x86_64-unknown-linux-gnu-version}} &ndash; {{vara-debug-x86_64-unknown-linux-gnu-size}} MB</li>
<li><a href=\"vara-debug-aarch64-apple-darwin.tar.xz\">vara-debug-aarch64-apple-darwin.tar.xz</a>{{vara-debug-aarch64-apple-darwin-version}} &ndash; {{vara-debug-aarch64-apple-darwin-size}} MB</li>
<li><a href=\"vara-debug-x86_64-apple-darwin.tar.xz\">vara-debug-x86_64-apple-darwin.tar.xz</a>{{vara-debug-x86_64-apple-darwin-version}} &ndash; {{vara-debug-x86_64-apple-darwin-size}} MB</li>
<li><a href=\"vara-debug-x86_64-pc-windows-msvc.zip\">vara-debug-x86_64-pc-windows-msvc.zip</a>{{vara-debug-x86_64-pc-windows-msvc-version}} &ndash; {{vara-debug-x86_64-pc-windows-msvc-size}} MB</li>
</ul>
<p>Updated {{now}}</p>
</body>
</html>
"
}

} // verus!
