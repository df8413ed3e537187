//! Module-reference resolution and the endpoint paths of the deploy
//! workflow. A module argument that names an existing local file is
//! uploaded and replaced by the server-issued id; any other value is
//! assumed to already be a remote identifier and passes through unchanged
//! (local file wins when both readings are possible). Within an operation
//! the upload always completes before the configuration request is built:
//! the request body needs the id the upload returns.

use vstd::prelude::*;

verus! {

/// What is to happen to a module argument: nothing was given, the value
/// passes through as a remote id, or a local file must be uploaded first.
#[derive(Debug)]
pub enum ModuleResolution {
    NoModule,
    UseId(String),
    UploadFirst(String),
}

/// Resolves a module argument. `names_local_file` says whether the value
/// names an existing local path. An absent argument resolves to nothing; a
/// value that is no local path passes through unchanged, with no upload; a
/// local path is marked for exactly one upload, whose returned id — never
/// the path — will stand in the configuration.
pub fn maybe_upload(module: Option<String>, names_local_file: bool) -> (r: ModuleResolution)
    ensures
        match module {
            None => r is NoModule,
            Some(m) => if names_local_file {
                r == ModuleResolution::UploadFirst(m)
            } else {
                r == ModuleResolution::UseId(m)
            },
        },
{
    match module {
        None => ModuleResolution::NoModule,
        Some(m) => if names_local_file {
            ModuleResolution::UploadFirst(m)
        } else {
            ModuleResolution::UseId(m)
        },
    }
}

/// The hosts collection endpoint.
pub fn hosts_path() -> (r: String)
    ensures
        r@ == "/hosts"@,
{
    String::from_str("/hosts")
}

/// The endpoint of one host.
pub fn host_path(host: &str) -> (r: String)
    ensures
        r@ == "/hosts/"@ + host@,
{
    let mut r = String::from_str("/hosts/");
    r.append(host);
    r
}

/// The compile (module upload) endpoint.
pub fn compile_path() -> (r: String)
    ensures
        r@ == "/compile"@,
{
    String::from_str("/compile")
}

/// The login endpoint.
pub fn login_path() -> (r: String)
    ensures
        r@ == "/login"@,
{
    String::from_str("/login")
}

} // verus!
