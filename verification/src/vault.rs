use vstd::prelude::*;

use crate::error::{text_outcome, EffectorError, EffectorErrorView};
use crate::text::{chars_of, has_separator_from};

verus! {

/// The logical root under which every caller sees its vault. The host keeps
/// the real place of the vaults under this key.
pub const VIRTUAL_VAULT_ROOT: &'static str = "/tmp/vault";

/// Who is asking: the pair that the host hands over with each request. It
/// serves one purpose, to name the caller's vault.
#[derive(Clone, Debug, PartialEq, Eq)]
pub struct CallerIdentity {
    pub id: String,
    pub token: String,
}

/// A [`CallerIdentity`] with its two texts as sequences of characters.
pub struct CallerIdentityView {
    pub id: Seq<char>,
    pub token: Seq<char>,
}

impl View for CallerIdentity {
    type V = CallerIdentityView;

    open spec fn view(&self) -> CallerIdentityView {
        CallerIdentityView { id: self.id@, token: self.token@ }
    }
}

/// The name of a caller's vault directory: `{id}-{token}`.
pub open spec fn particle_dir(caller: CallerIdentityView) -> Seq<char> {
    caller.id + "-"@ + caller.token
}

/// The path under which a caller sees its own vault:
/// `/tmp/vault/{id}-{token}`.
pub open spec fn virtual_vault(caller: CallerIdentityView) -> Seq<char> {
    "/tmp/vault"@ + "/"@ + particle_dir(caller)
}

/// Where a caller's vault really is: `{real_root}/{id}-{token}`.
pub open spec fn real_vault(caller: CallerIdentityView, real_root: Seq<char>) -> Seq<char> {
    real_root + "/"@ + particle_dir(caller)
}

/// A path is rooted when it begins with `/`.
pub open spec fn has_root(path: Seq<char>) -> bool {
    path.len() > 0 && path[0] == '/'
}

/// What is left of `path` once `prefix` is taken from its front: nothing
/// where the two are equal, what follows the `/` where `path` goes on with
/// one, and no answer otherwise. The prefix ends where a path segment ends:
/// `/a/bc` does not begin with `/a/b`.
pub open spec fn strip_prefix(path: Seq<char>, prefix: Seq<char>) -> Option<Seq<char>> {
    if path == prefix {
        Some(Seq::empty())
    } else if (prefix + "/"@).is_prefix_of(path) {
        Some(path.skip(prefix.len() as int + 1))
    } else {
        None
    }
}

/// The part of a virtual path that is to name a file in the caller's vault.
/// A rooted path must lead into the vault and loses the vault's own path; any
/// other path is taken as it stands. `None` where a rooted path leads
/// elsewhere.
pub open spec fn file_inside_vault(caller: CallerIdentityView, virtual_path: Seq<char>) -> Option<
    Seq<char>,
> {
    if has_root(virtual_path) {
        strip_prefix(virtual_path, virtual_vault(caller))
    } else {
        Some(virtual_path)
    }
}

/// The real path that a virtual path stands for, or the reason why it stands
/// for none. Nothing left after the vault's path means the vault directory
/// itself; one segment means a file in it; anything with a `/` in it is
/// refused.
pub open spec fn resolve(
    caller: CallerIdentityView,
    real_root: Seq<char>,
    virtual_path: Seq<char>,
) -> Result<Seq<char>, EffectorErrorView> {
    match file_inside_vault(caller, virtual_path) {
        None => Err(EffectorErrorView::OutsideVault),
        Some(rest) => {
            if rest.len() == 0 {
                Ok(real_vault(caller, real_root))
            } else if rest.contains('/') {
                Err(EffectorErrorView::NotAFilename)
            } else {
                Ok(real_vault(caller, real_root) + "/"@ + rest)
            }
        },
    }
}

/// What the host keeps under [`VIRTUAL_VAULT_ROOT`], as a text.
pub open spec fn mapping_view(mapping: Option<String>) -> Option<Seq<char>> {
    match mapping {
        Some(real_root) => Some(real_root@),
        None => None,
    }
}

/// What [`inject_vault`] comes to: without a mapping for the vault root
/// nothing is resolved, whatever the path.
pub open spec fn resolve_mapped(
    caller: CallerIdentityView,
    mapping: Option<Seq<char>>,
    virtual_path: Seq<char>,
) -> Result<Seq<char>, EffectorErrorView> {
    match mapping {
        None => Err(EffectorErrorView::VaultNotMapped),
        Some(real_root) => resolve(caller, real_root, virtual_path),
    }
}

/// The name of the caller's vault directory.
pub fn format_particle_dir(particle: &CallerIdentity) -> (dir: String)
    ensures
        dir@ == particle_dir(particle@),
{
    let mut dir = String::from_str(particle.id.as_str());
    dir.append("-");
    dir.append(particle.token.as_str());
    dir
}

/// The index in `path` at which what follows `prefix` begins, where `path`
/// begins with `prefix` as [`strip_prefix`] understands it.
fn strip_prefix_at(path: &Vec<char>, prefix: &Vec<char>) -> (start: Option<usize>)
    ensures
        match start {
            Some(k) => k <= path.len() && strip_prefix(path@, prefix@) == Some(
                path@.skip(k as int),
            ),
            None => strip_prefix(path@, prefix@) is None,
        },
{
    proof {
        reveal_strlit("/");
    }
    let n = prefix.len();
    if path.len() < n {
        return None;
    }
    let mut i: usize = 0;
    while i < n
        invariant
            n == prefix.len(),
            n <= path.len(),
            i <= n,
            forall|k: int| 0 <= k < i ==> path@[k] == prefix@[k],
        decreases n - i,
    {
        if path[i] != prefix[i] {
            assert((prefix@ + "/"@)[i as int] == prefix@[i as int]);
            return None;
        }
        i += 1;
    }
    if path.len() == n {
        assert(path@ =~= prefix@);
        assert(path@.skip(n as int) =~= Seq::<char>::empty());
        Some(n)
    } else if path[n] == '/' {
        assert((prefix@ + "/"@) =~= path@.subrange(0, n + 1));
        Some(n + 1)
    } else {
        assert((prefix@ + "/"@)[n as int] == '/');
        None
    }
}

/// Maps a virtual path to the real path in the caller's vault.
///
/// A caller may name a file of its vault in two ways, by the full virtual
/// path `/tmp/vault/{id}-{token}/{filename}` or by the bare `{filename}`, and
/// the vault directory itself by `/tmp/vault/{id}-{token}`. Every other path
/// is refused: a rooted path that leads elsewhere as
/// [`EffectorError::OutsideVault`], a path with more than one segment as
/// [`EffectorError::NotAFilename`]. The decision rests on the text of the
/// path alone; nothing is looked up.
pub fn inject_vault_host_path(
    particle: &CallerIdentity,
    real_vault_prefix: &str,
    virtual_path: &str,
) -> (res: Result<String, EffectorError>)
    ensures
        text_outcome(res) == resolve(particle@, real_vault_prefix@, virtual_path@),
{
    let dir = format_particle_dir(particle);
    let mut vault = String::from_str(VIRTUAL_VAULT_ROOT);
    vault.append("/");
    vault.append(dir.as_str());

    let path = chars_of(virtual_path);
    let start: usize = if path.len() > 0 && path[0] == '/' {
        match strip_prefix_at(&path, &chars_of(vault.as_str())) {
            Some(k) => k,
            None => {
                return Err(EffectorError::OutsideVault);
            },
        }
    } else {
        assert(path@.skip(0) == path@);
        0
    };
    if has_separator_from(&path, start) {
        return Err(EffectorError::NotAFilename);
    }
    let mut real_path = String::from_str(real_vault_prefix);
    real_path.append("/");
    real_path.append(dir.as_str());
    if start < path.len() {
        real_path.append("/");
        real_path.append(virtual_path.substring_char(start, path.len()));
        assert(path@.subrange(start as int, path.len() as int) == path@.skip(start as int));
    }
    Ok(real_path)
}

/// The real place of the vaults as the host gave it, or
/// [`EffectorError::VaultNotMapped`] where it gave none. `mapping` is what
/// the host keeps under [`VIRTUAL_VAULT_ROOT`].
pub fn get_host_vault_path(mapping: Option<String>) -> (res: Result<String, EffectorError>)
    ensures
        match mapping {
            Some(real_root) => res == Ok::<String, EffectorError>(real_root),
            None => res == Err::<String, EffectorError>(EffectorError::VaultNotMapped),
        },
{
    match mapping {
        Some(real_root) => Ok(real_root),
        None => Err(EffectorError::VaultNotMapped),
    }
}

/// Maps a virtual path to the real path in the vault of the caller `particle`,
/// given what the host keeps under [`VIRTUAL_VAULT_ROOT`]. Without that
/// mapping the answer is [`EffectorError::VaultNotMapped`] for every path;
/// with it, the answer is that of [`inject_vault_host_path`].
pub fn inject_vault(particle: &CallerIdentity, mapping: Option<String>, virtual_path: &str) -> (res:
    Result<String, EffectorError>)
    ensures
        text_outcome(res) == resolve_mapped(particle@, mapping_view(mapping), virtual_path@),
{
    let real_vault_prefix = match get_host_vault_path(mapping) {
        Ok(real_root) => real_root,
        Err(e) => {
            return Err(e);
        },
    };
    inject_vault_host_path(particle, real_vault_prefix.as_str(), virtual_path)
}

} // verus!
