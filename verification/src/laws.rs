//! The guarantees the walker gives, each stated and proved over the walk
//! model: what subprograms yield exactly one item, what yields none, and how
//! one entry's failure is confined to its own subtree.

use vstd::prelude::*;

use crate::classify::{demangled_of, spec_excluded};
use crate::dwarf::function::{collect_params, function_child, param_of, sp_init, sp_step_fn};
use crate::dwarf::walk::{walk_entry, walk_isolated};
use crate::entry::{scan_attrs, AttrName, AttrValue, Entry, ExtractError, Tag, LANG_RUST};
use crate::item::{FunctionModel, ItemModel};

verus! {

/// The `(name, type index)` pairs of the formal-parameter children of a
/// subprogram, in declaration order, counting only the children that
/// interpret without error.
pub open spec fn param_list(s: Seq<Entry>) -> Seq<(Option<Seq<char>>, usize)>
    decreases s.len(),
{
    if s.len() == 0 {
        Seq::empty()
    } else {
        let rest = param_list(s.drop_first());
        if s[0].tag == Tag::FormalParameter {
            match param_of(s[0].attrs@) {
                Ok(p) => seq![p] + rest,
                Err(_) => rest,
            }
        } else {
            rest
        }
    }
}

/// When every formal-parameter child interprets without error, collecting
/// the parameters appends exactly their pairs, in declaration order.
pub proof fn lemma_collect_params_ok(s: Seq<Entry>, f: FunctionModel)
    requires
        forall|i: int|
            0 <= i < s.len() && #[trigger] s[i].tag == Tag::FormalParameter ==> param_of(
                s[i].attrs@,
            ) is Ok,
    ensures
        collect_params(s, f) == Ok::<FunctionModel, ExtractError>(
            FunctionModel { arguments: f.arguments + param_list(s), ..f },
        ),
    decreases s.len(),
{
    if s.len() == 0 {
        assert(f.arguments + param_list(s) =~= f.arguments);
        assert(FunctionModel { arguments: f.arguments + param_list(s), ..f } == f);
    } else {
        if s[0].tag == Tag::FormalParameter {
            let p = param_of(s[0].attrs@)->Ok_0;
            let f2 = FunctionModel { arguments: f.arguments.push(p), ..f };
            assert(function_child(f, s[0]) == Ok::<FunctionModel, ExtractError>(f2));
            assert(forall|i: int|
                0 <= i < s.drop_first().len() && #[trigger] s.drop_first()[i].tag
                    == Tag::FormalParameter ==> param_of(s.drop_first()[i].attrs@) is Ok) by {
                assert(forall|i: int|
                    0 <= i < s.drop_first().len() ==> s.drop_first()[i] == s[i + 1]);
            }
            lemma_collect_params_ok(s.drop_first(), f2);
            assert(f2.arguments + param_list(s.drop_first()) =~= f.arguments + param_list(s));
        } else {
            assert(function_child(f, s[0]) == Ok::<FunctionModel, ExtractError>(f));
            assert(forall|i: int|
                0 <= i < s.drop_first().len() && #[trigger] s.drop_first()[i].tag
                    == Tag::FormalParameter ==> param_of(s.drop_first()[i].attrs@) is Ok) by {
                assert(forall|i: int|
                    0 <= i < s.drop_first().len() ==> s.drop_first()[i] == s[i + 1]);
            }
            lemma_collect_params_ok(s.drop_first(), f);
            assert(param_list(s) == param_list(s.drop_first()));
        }
    }
}

/// A subprogram with external linkage whose demangled name matches no
/// exclusion prefix, and whose formal-parameter children all interpret,
/// yields exactly one item: a `Function` whose arguments are the parameter
/// pairs in declaration order.
pub proof fn lemma_external_function_one_item(
    e: Entry,
    module: Seq<Seq<char>>,
    f: FunctionModel,
)
    requires
        e.tag == Tag::Subprogram,
        crate::dwarf::function::subprogram_of(e.attrs@, e.offset, module) == Ok::<
            Option<FunctionModel>,
            ExtractError,
        >(Some(f)),
        forall|i: int|
            0 <= i < e.children@.len() && #[trigger] e.children@[i].tag == Tag::FormalParameter
                ==> param_of(e.children@[i].attrs@) is Ok,
    ensures
        walk_entry(e, module).0 == seq![
            (
                e.offset,
                ItemModel::Function(
                    FunctionModel { arguments: param_list(e.children@), ..f },
                ),
            ),
        ],
        walk_entry(e, module).1 is None,
        !spec_excluded(f.full_name),
{
    lemma_collect_params_ok(e.children@, f);
    assert(f.arguments + param_list(e.children@) =~= param_list(e.children@));
}

/// A subprogram without external linkage yields no item and no error: the
/// exclusion is silent.
pub proof fn lemma_non_external_no_items(e: Entry, module: Seq<Seq<char>>)
    requires
        e.tag == Tag::Subprogram,
        (match scan_attrs(sp_step_fn(), sp_init(), e.attrs@) {
            Ok(st) => st.excluded || !st.external,
            Err(_) => false,
        }),
    ensures
        walk_entry(e, module).0 == Seq::<(usize, ItemModel)>::empty(),
        walk_entry(e, module).1 is None,
{
}

/// A subprogram whose demangled linkage name starts with an
/// internal-namespace prefix yields no item and no error, even with external
/// linkage set.
pub proof fn lemma_excluded_prefix_no_items(e: Entry, module: Seq<Seq<char>>)
    requires
        e.tag == Tag::Subprogram,
        (match scan_attrs(sp_step_fn(), sp_init(), e.attrs@) {
            Ok(st) => match st.linkage_name {
                Some(ln) => spec_excluded(demangled_of(ln)),
                None => false,
            },
            Err(_) => false,
        }),
    ensures
        walk_entry(e, module).0 == Seq::<(usize, ItemModel)>::empty(),
        walk_entry(e, module).1 is None,
{
}

/// One child's contribution to an isolation loop stands on its own: the
/// whole output is the concatenation of what comes before the child, the
/// child's own emission, and what comes after, so an entry dropped for a
/// missing attribute (it emits nothing) never disturbs its siblings, at its
/// own level or above.
pub proof fn lemma_sibling_isolation(s: Seq<Entry>, module: Seq<Seq<char>>, i: int)
    requires
        0 <= i < s.len(),
    ensures
        walk_isolated(s, module) == walk_isolated(s.take(i), module) + walk_entry(s[i], module).0
            + walk_isolated(s.skip(i + 1), module),
    decreases i,
{
    if i == 0 {
        assert(walk_isolated(s.take(0), module) =~= Seq::<(usize, ItemModel)>::empty());
        assert(s.skip(1) =~= s.drop_first());
        assert(walk_isolated(s.take(0), module) + walk_entry(s[0], module).0 + walk_isolated(
            s.skip(1),
            module,
        ) =~= walk_entry(s[0], module).0 + walk_isolated(s.drop_first(), module));
    } else {
        lemma_sibling_isolation(s.drop_first(), module, i - 1);
        assert(s.drop_first()[i - 1] == s[i]);
        assert(s.drop_first().take(i - 1) =~= s.take(i).drop_first());
        assert(s.drop_first().skip(i) =~= s.skip(i + 1));
        assert(s.take(i)[0] == s[0]);
        assert(walk_isolated(s.take(i), module) == walk_entry(s[0], module).0 + walk_isolated(
            s.take(i).drop_first(),
            module,
        ));
        assert(walk_entry(s[0], module).0 + (walk_isolated(s.take(i).drop_first(), module)
            + walk_entry(s[i], module).0 + walk_isolated(s.skip(i + 1), module)) =~= (walk_entry(
            s[0],
            module,
        ).0 + walk_isolated(s.take(i).drop_first(), module)) + walk_entry(s[i], module).0
            + walk_isolated(s.skip(i + 1), module));
    }
}

/// A compilation unit not marked as Rust yields no item and no error, so the
/// units after it are processed exactly as if it were absent.
pub proof fn lemma_non_rust_unit(e: Entry, module: Seq<Seq<char>>)
    requires
        e.tag == Tag::CompileUnit,
        crate::entry::first_attr(e.attrs@, AttrName::Language) != Some(
            AttrValue::Enumerator(LANG_RUST),
        ),
    ensures
        walk_entry(e, module).0 == Seq::<(usize, ItemModel)>::empty(),
        walk_entry(e, module).1 is None,
{
}

} // verus!
