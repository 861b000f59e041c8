//! Benchmarking support with `criterion`: what is added to the project's
//! `Cargo.toml`, and the benchmark file that is created.
use crate::text::{append, owned};
use vstd::prelude::*;

verus! {

/// The name of the benchmark when none is given.
pub open spec fn default_bench_name() -> Seq<char> {
    "benchmark"@
}

/// The sections appended to `Cargo.toml` for a benchmark named `name`.
pub open spec fn benchmarking_sections(name: Seq<char>) -> Seq<char> {
    "\n[dev-dependencies]\ncriterion = \"*\"\n\n[profile.release]\ndebug = true\n\n[[bench]]\nname = \""@
        + name + "\"\nharness = false"@
}

/// The sections appended to `Cargo.toml` for a benchmark named `name`:
/// `criterion` as a dev-dependency, debug information in release builds
/// and a `[[bench]]` target without the default harness.
pub fn format_benchmarking(name: &str) -> (r: String)
    ensures
        r@ == benchmarking_sections(name@),
{
    let mut out = owned(
        "\n[dev-dependencies]\ncriterion = \"*\"\n\n[profile.release]\ndebug = true\n\n[[bench]]\nname = \"",
    );
    append(&mut out, name);
    append(&mut out, "\"\nharness = false");
    out
}

/// The benchmark name: the one given, else `benchmark`.
pub fn bench_name(maybe_name: Option<&str>) -> (r: String)
    ensures
        r@ == match maybe_name {
            Some(n) => n@,
            None => default_bench_name(),
        },
{
    match maybe_name {
        Some(name) => owned(name),
        None => owned("benchmark"),
    }
}

/// The source of the benchmark file: an empty `criterion` benchmark.
pub open spec fn benchmark_source_text() -> Seq<char> {
    "use criterion::{black_box, criterion_group, criterion_main, Criterion};\n\nfn criterion_benchmark(_c: &mut Criterion) {\n\tprintln!(\"Hello, world!\");\n}\n\ncriterion_group!(\n\tbenches,\n\tcriterion_benchmark\n);\ncriterion_main!(benches);"@
}

/// The source of the benchmark file.
pub fn benchmark_source() -> (r: String)
    ensures
        r@ == benchmark_source_text(),
{
    owned(
        "use criterion::{black_box, criterion_group, criterion_main, Criterion};\n\nfn criterion_benchmark(_c: &mut Criterion) {\n\tprintln!(\"Hello, world!\");\n}\n\ncriterion_group!(\n\tbenches,\n\tcriterion_benchmark\n);\ncriterion_main!(benches);",
    )
}

} // verus!
