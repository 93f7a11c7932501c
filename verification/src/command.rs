use vstd::prelude::*;

use crate::error::{text_outcome, EffectorError, EffectorErrorView};
use crate::text::args_view;
use crate::tool::{run_ipfs, run_outcome, MountedBinaryOutput};
use crate::trusted::{trim, trimmed};
use crate::vault::{inject_vault, mapping_view, resolve_mapped, CallerIdentity, CallerIdentityView};

verus! {

/// `args` followed by what every call of the storage tool ends with: the
/// connection timeout of five seconds and the address of the node's API.
pub open spec fn with_connection(args: Seq<Seq<char>>, api_multiaddr: Seq<char>) -> Seq<
    Seq<char>,
> {
    args + seq!["--timeout"@, "5s"@, "--api"@, api_multiaddr]
}

/// The arguments that store the file at `real_path`: quiet output, so that
/// the tool prints the content identifier alone, identifiers of version 1,
/// and chunks of a fixed size, so that the same bytes always get the same
/// identifier.
pub open spec fn add_args(real_path: Seq<char>) -> Seq<Seq<char>> {
    seq!["add"@, "-Q"@, real_path, "--cid-version=1"@, "--chunker=size-262144"@]
}

/// The arguments that fetch the content `cid` into the file at `real_path`.
pub open spec fn get_args(real_path: Seq<char>, cid: Seq<char>) -> Seq<Seq<char>> {
    seq!["get"@, "-o"@, real_path, cid]
}

/// A command line, or the error that stood in its way, by its view.
pub open spec fn command_outcome(res: Result<Vec<String>, EffectorError>) -> Result<
    Seq<Seq<char>>,
    EffectorErrorView,
> {
    match res {
        Ok(cmd) => Ok(args_view(cmd@)),
        Err(e) => Err(e@),
    }
}

/// The command line of a request to store `input_vault_path`. The file must
/// be there before its path is so much as looked at; then the path must
/// resolve.
pub open spec fn add_command_spec(
    api_multiaddr: Seq<char>,
    input_vault_path: Seq<char>,
    exists: bool,
    caller: CallerIdentityView,
    mapping: Option<Seq<char>>,
) -> Result<Seq<Seq<char>>, EffectorErrorView> {
    if !exists {
        Err(EffectorErrorView::SourceNotFound { path: input_vault_path })
    } else {
        match resolve_mapped(caller, mapping, input_vault_path) {
            Ok(real_path) => Ok(with_connection(add_args(real_path), api_multiaddr)),
            Err(e) => Err(e),
        }
    }
}

/// The command line of a request to fetch `cid` into `output_vault_path`.
pub open spec fn get_command_spec(
    api_multiaddr: Seq<char>,
    cid: Seq<char>,
    output_vault_path: Seq<char>,
    caller: CallerIdentityView,
    mapping: Option<Seq<char>>,
) -> Result<Seq<Seq<char>>, EffectorErrorView> {
    match resolve_mapped(caller, mapping, output_vault_path) {
        Ok(real_path) => Ok(with_connection(get_args(real_path, cid), api_multiaddr)),
        Err(e) => Err(e),
    }
}

/// Completes the arguments of a call of the storage tool with the connection
/// timeout and the address of the node's API.
pub fn make_cmd_args(args: Vec<String>, api_multiaddr: String) -> (cmd: Vec<String>)
    ensures
        args_view(cmd@) == with_connection(args_view(args@), api_multiaddr@),
{
    let mut cmd = args;
    cmd.push(String::from_str("--timeout"));
    cmd.push(String::from_str("5s"));
    cmd.push(String::from_str("--api"));
    cmd.push(api_multiaddr);
    assert(args_view(cmd@) =~= with_connection(args_view(args@), api_multiaddr@));
    cmd
}

/// Plans the storing of a file: the command line to run the storage tool
/// with, or the reason why it is not to be run. `exists` says whether there
/// is a file at `input_vault_path`; `particle` and `mapping` are what the
/// host gave for this request.
pub fn add_command(
    api_multiaddr: String,
    input_vault_path: String,
    exists: bool,
    particle: &CallerIdentity,
    mapping: Option<String>,
) -> (res: Result<Vec<String>, EffectorError>)
    ensures
        command_outcome(res) == add_command_spec(
            api_multiaddr@,
            input_vault_path@,
            exists,
            particle@,
            mapping_view(mapping),
        ),
{
    if !exists {
        return Err(EffectorError::SourceNotFound { path: input_vault_path });
    }
    let real_path = match inject_vault(particle, mapping, input_vault_path.as_str()) {
        Ok(real_path) => real_path,
        Err(e) => {
            return Err(e);
        },
    };
    let mut args: Vec<String> = Vec::new();
    args.push(String::from_str("add"));
    args.push(String::from_str("-Q"));
    args.push(real_path);
    args.push(String::from_str("--cid-version=1"));
    args.push(String::from_str("--chunker=size-262144"));
    assert(args_view(args@) =~= add_args(real_path@));
    Ok(make_cmd_args(args, api_multiaddr))
}

/// Reads what the storage tool gave when run with the command line of
/// [`add_command`]: the content identifier, which is the standard output
/// without the whitespace around it.
pub fn add_outcome(cmd: Vec<String>, output: MountedBinaryOutput) -> (res: Result<
    String,
    EffectorError,
>)
    ensures
        text_outcome(res) == match run_outcome(args_view(cmd@), output) {
            Ok(stdout) => Ok(trimmed(stdout)),
            Err(e) => Err(e),
        },
{
    match run_ipfs(cmd, output) {
        Ok(stdout) => Ok(trim(stdout.as_str())),
        Err(e) => Err(e),
    }
}

/// Plans the fetching of content: the command line to run the storage tool
/// with, or the reason why it is not to be run.
pub fn get_command(
    api_multiaddr: String,
    cid: String,
    output_vault_path: &str,
    particle: &CallerIdentity,
    mapping: Option<String>,
) -> (res: Result<Vec<String>, EffectorError>)
    ensures
        command_outcome(res) == get_command_spec(
            api_multiaddr@,
            cid@,
            output_vault_path@,
            particle@,
            mapping_view(mapping),
        ),
{
    let real_path = match inject_vault(particle, mapping, output_vault_path) {
        Ok(real_path) => real_path,
        Err(e) => {
            return Err(e);
        },
    };
    let mut args: Vec<String> = Vec::new();
    args.push(String::from_str("get"));
    args.push(String::from_str("-o"));
    args.push(real_path);
    args.push(cid);
    assert(args_view(args@) =~= get_args(real_path@, cid@));
    Ok(make_cmd_args(args, api_multiaddr))
}

/// Reads what the storage tool gave when run with the command line of
/// [`get_command`]: success has nothing to tell, the standard output is
/// dropped.
pub fn get_outcome(cmd: Vec<String>, output: MountedBinaryOutput) -> (res: Result<
    (),
    EffectorError,
>)
    ensures
        match run_outcome(args_view(cmd@), output) {
            Ok(_) => res is Ok,
            Err(e) => res matches Err(got) && got@ == e,
        },
{
    match run_ipfs(cmd, output) {
        Ok(_) => Ok(()),
        Err(e) => Err(e),
    }
}

} // verus!
