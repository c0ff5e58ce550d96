//! The symbol classifier: demangles a linkage symbol and decides whether it
//! is externally callable API surface or a compiler/runtime artifact.
//!
//! Debug info for a Rust binary holds thousands of compiler- and
//! runtime-generated subprograms (monomorphized generics, panic machinery,
//! allocator shims) that are never meant to be called through a generated
//! binding. The filter below is a conservative allowlist-by-exclusion over
//! the demangled namespace.

use vstd::prelude::*;
use vstd::string::StrSliceExecFns;

verus! {

/// `p` is a prefix of `s`.
pub open spec fn is_prefix(s: Seq<char>, p: Seq<char>) -> bool {
    p.len() <= s.len() && forall|i: int| 0 <= i < p.len() ==> s[i] == p[i]
}

/// The demangled display form of a mangled symbol, as the demangler renders
/// it: a fixed function of the symbol text alone.
pub uninterp spec fn demangled_of(s: Seq<char>) -> Seq<char>;

/// A demangled name belongs to a runtime- or compiler-internal namespace:
/// the exclusion table deciding which subprograms are not API surface.
pub open spec fn spec_excluded(name: Seq<char>) -> bool {
    ||| is_prefix(name, "alloc::"@)
    ||| is_prefix(name, "backtrace::"@)
    ||| is_prefix(name, "compiler_builtins::"@)
    ||| is_prefix(name, "core::"@)
    ||| is_prefix(name, "libc::"@)
    ||| is_prefix(name, "panic_unwind::"@)
    ||| is_prefix(name, "rust_"@)
    ||| is_prefix(name, "rustc_demangle::"@)
    ||| is_prefix(name, "std::"@)
    ||| is_prefix(name, "<"@)
    ||| is_prefix(name, "__"@)
}

/// Decides whether `p` is a prefix of `s`, character by character.
pub fn has_prefix(s: &str, p: &str) -> (b: bool)
    ensures
        b == is_prefix(s@, p@),
{
    let sl: usize = s.unicode_len();
    let pl: usize = p.unicode_len();
    if pl > sl {
        return false;
    }
    for i in 0..pl
        invariant
            pl <= sl,
            sl == s@.len(),
            pl == p@.len(),
            forall|j: int| 0 <= j < i ==> s@[j] == p@[j],
    {
        if s.get_char(i) != p.get_char(i) {
            return false;
        }
    }
    true
}

/// Tests a demangled name against the exclusion table.
pub fn is_excluded(name: &str) -> (b: bool)
    ensures
        b == spec_excluded(name@),
{
    has_prefix(name, "alloc::") || has_prefix(name, "backtrace::") || has_prefix(
        name,
        "compiler_builtins::",
    ) || has_prefix(name, "core::") || has_prefix(name, "libc::") || has_prefix(
        name,
        "panic_unwind::",
    ) || has_prefix(name, "rust_") || has_prefix(name, "rustc_demangle::") || has_prefix(
        name,
        "std::",
    ) || has_prefix(name, "<") || has_prefix(name, "__")
}

/// Relies on `rustc_demangle::demangle`: the demangled display form of a
/// symbol depends on the symbol text alone.
#[verifier::external_body]
fn demangle_name(s: &str) -> (r: String)
    ensures
        r@ == demangled_of(s@),
{
    rustc_demangle::demangle(s).to_string()
}

/// Demangles a raw exported symbol and decides whether it is API surface:
/// `Some` with the demangled fully-qualified name when it is, `None` when the
/// name falls in an internal namespace.
pub fn classify_symbol(linkage: &str) -> (r: Option<String>)
    ensures
        match r {
            Some(full) => full@ == demangled_of(linkage@) && !spec_excluded(
                demangled_of(linkage@),
            ),
            None => spec_excluded(demangled_of(linkage@)),
        },
{
    let full = demangle_name(linkage);
    if is_excluded(full.as_str()) {
        None
    } else {
        Some(full)
    }
}

} // verus!
