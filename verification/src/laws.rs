use vstd::prelude::*;

use crate::error::{text_outcome, EffectorError, EffectorErrorView};
use crate::vault::{
    file_inside_vault, has_root, mapping_view, particle_dir, real_vault, resolve, resolve_mapped,
    virtual_vault,
    CallerIdentity, CallerIdentityView,
};

verus! {

/// A file of the vault can be named in two ways with one meaning: by its bare
/// name, and by that name behind the vault's virtual path. Either resolves to
/// the name behind the vault's real path. A name here is a text that is not
/// empty and holds no `/`.
pub proof fn filename_resolves_both_ways(
    caller: CallerIdentityView,
    real_root: Seq<char>,
    filename: Seq<char>,
)
    requires
        filename.len() > 0,
        !filename.contains('/'),
    ensures
        resolve(caller, real_root, filename) == Ok::<Seq<char>, EffectorErrorView>(
            real_root + "/"@ + particle_dir(caller) + "/"@ + filename,
        ),
        resolve(caller, real_root, virtual_vault(caller) + "/"@ + filename) == resolve(
            caller,
            real_root,
            filename,
        ),
{
    reveal_strlit("/");
    reveal_strlit("/tmp/vault");
    let vault = virtual_vault(caller);
    let full = vault + "/"@ + filename;
    assert(filename[0] != '/') by {
        if filename[0] == '/' {
            assert(filename.contains('/'));
        }
    }
    assert(full[0] == '/');
    assert(full != vault);
    assert((vault + "/"@).is_prefix_of(full));
    assert(full.skip(vault.len() as int + 1) =~= filename);
}

/// The vault's own virtual path resolves to the vault's real path.
pub proof fn vault_directory_resolves(caller: CallerIdentityView, real_root: Seq<char>)
    ensures
        resolve(caller, real_root, virtual_vault(caller)) == Ok::<Seq<char>, EffectorErrorView>(
            real_root + "/"@ + particle_dir(caller),
        ),
{
    reveal_strlit("/");
    reveal_strlit("/tmp/vault");
    assert(virtual_vault(caller)[0] == '/');
}

/// A rooted path that does not begin with the caller's virtual vault path is
/// refused as lying outside the vault. That holds of system paths and of the
/// vaults of other callers alike.
pub proof fn rooted_path_elsewhere_is_outside(
    caller: CallerIdentityView,
    real_root: Seq<char>,
    virtual_path: Seq<char>,
)
    requires
        has_root(virtual_path),
        !virtual_vault(caller).is_prefix_of(virtual_path),
    ensures
        resolve(caller, real_root, virtual_path) == Err::<Seq<char>, EffectorErrorView>(
            EffectorErrorView::OutsideVault,
        ),
{
    let vault = virtual_vault(caller);
    if (vault + "/"@).is_prefix_of(virtual_path) {
        assert(vault =~= (vault + "/"@).subrange(0, vault.len() as int));
        assert(vault =~= virtual_path.subrange(0, vault.len() as int));
    }
    if virtual_path == vault {
        assert(vault =~= virtual_path.subrange(0, vault.len() as int));
    }
}

/// A path whose part inside the vault holds a `/` is refused as no filename,
/// whether it was rooted or bare.
pub proof fn nested_path_is_not_a_filename(
    caller: CallerIdentityView,
    real_root: Seq<char>,
    virtual_path: Seq<char>,
)
    requires
        file_inside_vault(caller, virtual_path) matches Some(rest) && rest.contains('/'),
    ensures
        resolve(caller, real_root, virtual_path) == Err::<Seq<char>, EffectorErrorView>(
            EffectorErrorView::NotAFilename,
        ),
{
}

/// The two shapes of a nested path: a bare path with a `/` in it, and the
/// vault's virtual path followed by `/` and a remainder with a `/` in it.
pub proof fn nested_shapes_are_not_filenames(
    caller: CallerIdentityView,
    real_root: Seq<char>,
    nested: Seq<char>,
)
    requires
        nested.contains('/'),
    ensures
        !has_root(nested) ==> resolve(caller, real_root, nested) == Err::<
            Seq<char>,
            EffectorErrorView,
        >(EffectorErrorView::NotAFilename),
        resolve(caller, real_root, virtual_vault(caller) + "/"@ + nested) == Err::<
            Seq<char>,
            EffectorErrorView,
        >(EffectorErrorView::NotAFilename),
{
    reveal_strlit("/");
    reveal_strlit("/tmp/vault");
    let vault = virtual_vault(caller);
    let full = vault + "/"@ + nested;
    assert(full[0] == '/');
    assert(full != vault);
    assert((vault + "/"@).is_prefix_of(full));
    assert(full.skip(vault.len() as int + 1) =~= nested);
}

/// Whatever resolves lies in the caller's real vault and nowhere else: the
/// result is the vault directory, or the vault directory, a `/` and one
/// segment without a `/`.
pub proof fn resolved_path_stays_in_vault(
    caller: CallerIdentityView,
    real_root: Seq<char>,
    virtual_path: Seq<char>,
)
    requires
        resolve(caller, real_root, virtual_path) is Ok,
    ensures
        ({
            let resolved = resolve(caller, real_root, virtual_path)->Ok_0;
            let vault = real_vault(caller, real_root);
            ||| resolved == vault
            ||| {
                &&& (vault + "/"@).is_prefix_of(resolved)
                &&& resolved.len() > vault.len() + 1
                &&& !resolved.skip(vault.len() as int + 1).contains('/')
            }
        }),
{
    reveal_strlit("/");
    let resolved = resolve(caller, real_root, virtual_path)->Ok_0;
    let vault = real_vault(caller, real_root);
    let rest = file_inside_vault(caller, virtual_path)->Some_0;
    if rest.len() > 0 {
        assert(resolved == vault + "/"@ + rest);
        assert((vault + "/"@) =~= resolved.subrange(0, vault.len() as int + 1));
        assert(resolved.skip(vault.len() as int + 1) =~= rest);
    }
}

/// Resolution is a function of the texts alone: two answers that
/// [`crate::vault::inject_vault`] may give for callers, mappings and paths
/// that read the same are the same answer.
pub proof fn resolution_is_repeatable(
    first_caller: CallerIdentity,
    second_caller: CallerIdentity,
    first_mapping: Option<String>,
    second_mapping: Option<String>,
    first_path: &str,
    second_path: &str,
    first: Result<String, EffectorError>,
    second: Result<String, EffectorError>,
)
    requires
        first_caller@ == second_caller@,
        mapping_view(first_mapping) == mapping_view(second_mapping),
        first_path@ == second_path@,
        text_outcome(first) == resolve_mapped(
            first_caller@,
            mapping_view(first_mapping),
            first_path@,
        ),
        text_outcome(second) == resolve_mapped(
            second_caller@,
            mapping_view(second_mapping),
            second_path@,
        ),
    ensures
        text_outcome(first) == text_outcome(second),
        first is Ok ==> second is Ok && first->Ok_0@ == second->Ok_0@,
        first is Err ==> second is Err && first->Err_0@ == second->Err_0@,
{
}

/// Without a mapping for the vault root every path is refused for that
/// reason, the ones that would resolve and the ones that would not.
pub proof fn unmapped_vault_refuses_every_path(caller: CallerIdentityView, virtual_path: Seq<char>)
    ensures
        resolve_mapped(caller, None, virtual_path) == Err::<Seq<char>, EffectorErrorView>(
            EffectorErrorView::VaultNotMapped,
        ),
{
}

} // verus!
