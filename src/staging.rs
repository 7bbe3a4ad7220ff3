use vstd::prelude::*;
use vstd::string::*;

use crate::catalog::{
    boot_path, image_prefix, is_aux_image, is_first_aux, resolve, ResolutionError,
};
use crate::text::{is_trim_of, join, trim, views};

verus! {

/// Why a kernel could not be staged.
#[derive(Debug, Clone, PartialEq, Eq)]
pub enum StagingError {
    /// No auxiliary boot image matches the version.
    InitrdNotFound,
    /// The boot command line could not be read.
    CmdlineUnreadable,
    /// The load operation exited with failure; its diagnostic text.
    CommandFailed(String),
}

/// Why the switch to the staged kernel failed: the diagnostic text of the
/// execute operation.
#[derive(Debug, Clone, PartialEq, Eq)]
pub enum SwitchError {
    CommandFailed(String),
}

/// What the load operation is handed: kernel image, auxiliary image and boot
/// command line.
#[derive(Debug, Clone, PartialEq, Eq)]
pub struct StagingRequest {
    pub image_path: String,
    pub initrd_path: String,
    pub cmdline: String,
}

/// The path of the kernel image of `version`.
pub open spec fn image_path_of(version: Seq<char>) -> Seq<char> {
    boot_path(image_prefix() + version)
}

/// The argument vector that stages `req`, helper program first.
pub open spec fn load_argv(req: StagingRequest) -> Seq<Seq<char>> {
    seq![
        "sudo"@,
        "kexec"@,
        "-l"@,
        req.image_path@,
        "--initrd="@ + req.initrd_path@,
        "--command-line="@ + req.cmdline@,
    ]
}

/// The argument vector that switches to the staged kernel.
pub open spec fn execute_argv() -> Seq<Seq<char>> {
    seq!["sudo"@, "kexec"@, "-e"@]
}

/// The text that reports a staging error for `version`.
pub open spec fn staging_message(e: StagingError, version: Seq<char>) -> Seq<char> {
    match e {
        StagingError::InitrdNotFound => "No initrd file found for version "@ + version,
        StagingError::CmdlineUnreadable => "Cannot read the boot command line"@,
        StagingError::CommandFailed(t) => "kexec load failed: "@ + t@,
    }
}

/// The text that reports a failed switch.
pub open spec fn switch_message(e: SwitchError) -> Seq<char> {
    match e {
        SwitchError::CommandFailed(t) => "kexec execute failed: "@ + t@,
    }
}

/// The path of the kernel image of `version`.
pub fn image_path(version: &str) -> (r: String)
    ensures
        r@ == image_path_of(version@),
{
    let dir = join("/boot/", "vmlinuz-");
    let r = join(dir.as_str(), version);
    assert(r@ =~= image_path_of(version@));
    r
}

/// The request that stages `version`, from the boot directory's listing and
/// the boot command line as read (`None` where it could not be read).
pub fn plan_load(version: &str, listing: &Vec<String>, cmdline: Option<String>) -> (r: Result<
    StagingRequest,
    StagingError,
>)
    ensures
        match r {
            Ok(req) => {
                &&& req.image_path@ == image_path_of(version@)
                &&& exists|i: int|
                    is_first_aux(views(listing@), version@, i) && req.initrd_path@ == boot_path(
                        #[trigger] listing@[i]@,
                    )
                &&& cmdline is Some
                &&& is_trim_of(req.cmdline@, cmdline->0@)
            },
            Err(StagingError::InitrdNotFound) => forall|i: int|
                0 <= i < listing.len() ==> !is_aux_image(#[trigger] listing@[i]@, version@),
            Err(StagingError::CmdlineUnreadable) => cmdline is None && exists|i: int|
                0 <= i < listing.len() && is_aux_image(#[trigger] listing@[i]@, version@),
            Err(StagingError::CommandFailed(_)) => false,
        },
{
    let initrd_path = match resolve(listing, version) {
        Ok(p) => p,
        Err(ResolutionError::NotFound) => {
            return Err(StagingError::InitrdNotFound);
        },
    };
    let raw = match cmdline {
        Some(c) => c,
        None => {
            assert(exists|i: int|
                0 <= i < listing.len() && is_aux_image(#[trigger] listing@[i]@, version@)) by {
                let i = choose|i: int|
                    is_first_aux(views(listing@), version@, i) && initrd_path@ == boot_path(
                        #[trigger] listing@[i]@,
                    );
                assert(views(listing@)[i] == listing@[i]@);
            }
            return Err(StagingError::CmdlineUnreadable);
        },
    };
    Ok(StagingRequest { image_path: image_path(version), initrd_path, cmdline: trim(raw.as_str()) })
}

/// The argument vector that stages `req`.
pub fn load_command(req: &StagingRequest) -> (r: Vec<String>)
    ensures
        views(r@) == load_argv(*req),
{
    let mut r: Vec<String> = Vec::new();
    r.push("sudo".to_owned());
    r.push("kexec".to_owned());
    r.push("-l".to_owned());
    r.push(req.image_path.clone());
    r.push(join("--initrd=", req.initrd_path.as_str()));
    r.push(join("--command-line=", req.cmdline.as_str()));
    assert(views(r@) =~= load_argv(*req));
    r
}

/// The argument vector that switches to the staged kernel.
pub fn execute_command() -> (r: Vec<String>)
    ensures
        views(r@) == execute_argv(),
{
    let mut r: Vec<String> = Vec::new();
    r.push("sudo".to_owned());
    r.push("kexec".to_owned());
    r.push("-e".to_owned());
    assert(views(r@) =~= execute_argv());
    r
}

/// The outcome of the load operation, from its exit status and error output.
pub fn load_outcome(success: bool, stderr: String) -> (r: Result<(), StagingError>)
    ensures
        success ==> r is Ok,
        !success ==> r == Err::<(), StagingError>(StagingError::CommandFailed(stderr)),
{
    if success {
        Ok(())
    } else {
        Err(StagingError::CommandFailed(stderr))
    }
}

/// The outcome of the execute operation, from its exit status and error output.
pub fn switch_outcome(success: bool, stderr: String) -> (r: Result<(), SwitchError>)
    ensures
        success ==> r is Ok,
        !success ==> r == Err::<(), SwitchError>(SwitchError::CommandFailed(stderr)),
{
    if success {
        Ok(())
    } else {
        Err(SwitchError::CommandFailed(stderr))
    }
}

impl StagingError {
    /// The text that reports this error for `version`.
    pub fn message(&self, version: &str) -> (r: String)
        ensures
            r@ == staging_message(*self, version@),
    {
        match self {
            StagingError::InitrdNotFound => join("No initrd file found for version ", version),
            StagingError::CmdlineUnreadable => "Cannot read the boot command line".to_owned(),
            StagingError::CommandFailed(t) => join("kexec load failed: ", t.as_str()),
        }
    }
}

impl SwitchError {
    /// The text that reports this error.
    pub fn message(&self) -> (r: String)
        ensures
            r@ == switch_message(*self),
    {
        match self {
            SwitchError::CommandFailed(t) => join("kexec execute failed: ", t.as_str()),
        }
    }
}

} // verus!
