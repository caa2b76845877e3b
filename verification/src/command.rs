//! The invocation of `podman create` that a manifest compiles to.

use vstd::prelude::*;
use vstd::string::StringExecFns;
use crate::host::{HostUser, HostUserSpec};
use crate::json::{json_array, to_json};
use crate::manifest::{Container, ContainerInit, InitSpec, Manifest};
use crate::share_args::share_args;
use crate::text::{
    append_texts, decimal, decimal_string, push_strs, push_text, push_texts, Text,
};

verus! {

/// Why a container was not created.
#[derive(Debug, Clone, Copy, PartialEq, Eq, Structural)]
pub enum CreateError {
    /// The path of the running executable is not known, so it cannot be
    /// mounted into the container as its entrypoint.
    SelfPathUnavailable,
    /// One of the init lists could not be encoded as JSON.
    PayloadEncodingFailed,
    /// The engine ran and returned a status other than zero.
    ContainerCreationFailed { code: i32 },
}

/// The three init lists of a manifest, each encoded as a JSON array of its own.
#[derive(Debug, Clone)]
pub struct InitPayload {
    pub pre_init: String,
    pub init: String,
    pub packages: String,
}

/// Model of an [`InitPayload`].
pub struct PayloadSpec {
    pub pre_init: Text,
    pub init: Text,
    pub packages: Text,
}

impl View for InitPayload {
    type V = PayloadSpec;

    open spec fn view(&self) -> PayloadSpec {
        PayloadSpec { pre_init: self.pre_init@, init: self.init@, packages: self.packages@ }
    }
}

/// Where the entrypoint is mounted inside every container.
pub open spec fn entrypoint_path() -> Text {
    "/usr/bin/entrypoint"@
}

/// The value of the `--mount` flag that binds the executable at `exe`,
/// read-only, to the entrypoint path.
pub open spec fn entrypoint_mount(exe: Text) -> Text {
    "type=bind,source="@ + exe + ",dst="@ + entrypoint_path() + ",ro=true"@
}

/// The engine, its sub-command, the caller's additional arguments, and the
/// flags that every container gets: host name, name, label, root user.
pub open spec fn head_args(m: Manifest) -> Seq<Text> {
    seq!["podman"@, "create"@] + m.additional_args + seq![
        "--hostname"@,
        m.name,
        "--name"@,
        m.name,
        "--label"@,
        "\"manager=pocket-dimension\""@,
        "--user"@,
        "root:root"@,
    ]
}

/// The mount that brings the executable at `exe` into the container, and the
/// flag that makes it the entrypoint.
pub open spec fn entrypoint_args(exe: Text) -> Seq<Text> {
    seq!["--mount"@, entrypoint_mount(exe), "--entrypoint"@, entrypoint_path()]
}

/// The package command behind its flag, or nothing.
pub open spec fn package_command_args(command: Option<Text>) -> Seq<Text> {
    match command {
        Some(c) => seq!["--package-command"@, c],
        None => Seq::empty(),
    }
}

/// The image, then what the entrypoint is told: the invoking user, the three
/// encoded init lists and, where the manifest has one, the package command.
pub open spec fn bootstrap_args(m: Manifest, user: HostUserSpec, payload: PayloadSpec) -> Seq<
    Text,
> {
    seq![
        m.image,
        "--username"@,
        user.name,
        "--uid"@,
        decimal(user.uid),
        "--gid"@,
        decimal(user.gid),
        "--pre-init"@,
        payload.pre_init,
        "--init"@,
        payload.init,
        "--packages"@,
        payload.packages,
    ] + package_command_args(m.init.package_command)
}

/// The whole invocation, program name first.
pub open spec fn invocation(
    m: Manifest,
    exe: Text,
    user: HostUserSpec,
    payload: PayloadSpec,
) -> Seq<Text> {
    head_args(m) + share_args(m.share) + entrypoint_args(exe) + bootstrap_args(m, user, payload)
}

/// The encoded init lists, or `None` where one of them has no encoding.
pub open spec fn payload_of(init: InitSpec) -> Option<PayloadSpec> {
    match (json_array(init.pre_init), json_array(init.init), json_array(init.packages)) {
        (Some(pre_init), Some(init), Some(packages)) => Some(
            PayloadSpec { pre_init, init, packages },
        ),
        _ => None,
    }
}

/// What compiling a manifest gives: the invocation, or the reason why there
/// is none. An unknown executable path is reported before an encoding failure.
pub open spec fn compiled(m: Manifest, exe: Option<Text>, user: HostUserSpec) -> Result<
    Seq<Text>,
    CreateError,
> {
    match exe {
        None => Err(CreateError::SelfPathUnavailable),
        Some(path) => match payload_of(m.init) {
            None => Err(CreateError::PayloadEncodingFailed),
            Some(payload) => Ok(invocation(m, path, user, payload)),
        },
    }
}

/// The outcome of a compilation with the arguments taken as texts.
pub open spec fn outcome(r: Result<Vec<String>, CreateError>) -> Result<Seq<Text>, CreateError> {
    match r {
        Ok(args) => Ok(args.deep_view()),
        Err(e) => Err(e),
    }
}

/// What [`Container::create_command`] gives where the host reports `name` as
/// the user's name.
pub open spec fn created(m: Manifest, exe: Option<Text>, name: Text, uid: u32, gid: u32) -> Result<
    Seq<Text>,
    CreateError,
> {
    compiled(m, exe, HostUserSpec { name, uid: uid as nat, gid: gid as nat })
}

/// One unconditional read-only bind mount injects the executable at `exe`
/// into the container, so that it can be invoked as the entrypoint.
fn entrypoint(exe: &str) -> (out: Vec<String>)
    ensures
        out.deep_view() == entrypoint_args(exe@),
{
    let mut mount = String::from_str("type=bind,source=");
    mount.append(exe);
    mount.append(",dst=");
    mount.append("/usr/bin/entrypoint");
    mount.append(",ro=true");
    let mut out: Vec<String> = Vec::new();
    push_text(&mut out, "--mount");
    push_text(&mut out, mount.as_str());
    push_text(&mut out, "--entrypoint");
    push_text(&mut out, "/usr/bin/entrypoint");
    assert(out.deep_view() =~= entrypoint_args(exe@));
    out
}

/// Reads the status with which the engine ended: zero is success, anything
/// else is a failure that carries the status.
pub fn creation_outcome(code: i32) -> (r: Result<(), CreateError>)
    ensures
        code == 0 ==> r is Ok,
        code != 0 ==> r == Err::<(), CreateError>(CreateError::ContainerCreationFailed { code }),
{
    if code == 0 {
        Ok(())
    } else {
        Err(CreateError::ContainerCreationFailed { code })
    }
}

impl ContainerInit {
    /// Encodes `pre_init`, `init` and `packages`, each as a JSON array of
    /// strings in the order of the list.
    pub fn encode(&self) -> (r: Result<InitPayload, CreateError>)
        ensures
            match r {
                Ok(payload) => payload_of(self@) == Some(payload@),
                Err(e) => e == CreateError::PayloadEncodingFailed && payload_of(self@) is None,
            },
    {
        let pre_init = match to_json(&self.pre_init) {
            Ok(text) => text,
            Err(_) => {
                return Err(CreateError::PayloadEncodingFailed);
            },
        };
        let init = match to_json(&self.init) {
            Ok(text) => text,
            Err(_) => {
                return Err(CreateError::PayloadEncodingFailed);
            },
        };
        let packages = match to_json(&self.packages) {
            Ok(text) => text,
            Err(_) => {
                return Err(CreateError::PayloadEncodingFailed);
            },
        };
        Ok(InitPayload { pre_init, init, packages })
    }
}

impl Container {
    fn head(&self) -> (out: Vec<String>)
        ensures
            out.deep_view() == head_args(self@),
    {
        let mut out: Vec<String> = Vec::new();
        push_text(&mut out, "podman");
        push_text(&mut out, "create");
        push_texts(&mut out, &self.additional_args);
        push_text(&mut out, "--hostname");
        push_text(&mut out, self.name.as_str());
        push_text(&mut out, "--name");
        push_text(&mut out, self.name.as_str());
        push_text(&mut out, "--label");
        push_text(&mut out, "\"manager=pocket-dimension\"");
        // The entrypoint expects to be run as root.
        push_text(&mut out, "--user");
        push_text(&mut out, "root:root");
        assert(out.deep_view() =~= head_args(self@));
        out
    }

    fn share(&self) -> (out: Vec<String>)
        ensures
            out.deep_view() == share_args(self@.share),
    {
        let mut out: Vec<String> = Vec::new();
        let net = self.net_arg();
        push_text(&mut out, net[0]);
        push_text(&mut out, net[1]);
        let ipc = self.ipc_arg();
        push_text(&mut out, ipc[0]);
        push_text(&mut out, ipc[1]);
        push_strs(&mut out, &self.sec_args());
        append_texts(&mut out, self.mnt_args());
        assert(out.deep_view() =~= share_args(self@.share));
        out
    }

    fn bootstrap(&self, user: &HostUser, payload: &InitPayload) -> (out: Vec<String>)
        ensures
            out.deep_view() == bootstrap_args(self@, user@, payload@),
    {
        let mut out: Vec<String> = Vec::new();
        push_text(&mut out, self.image.as_str());
        push_text(&mut out, "--username");
        push_text(&mut out, user.name.as_str());
        push_text(&mut out, "--uid");
        push_text(&mut out, decimal_string(user.uid).as_str());
        push_text(&mut out, "--gid");
        push_text(&mut out, decimal_string(user.gid).as_str());
        push_text(&mut out, "--pre-init");
        push_text(&mut out, payload.pre_init.as_str());
        push_text(&mut out, "--init");
        push_text(&mut out, payload.init.as_str());
        push_text(&mut out, "--packages");
        push_text(&mut out, payload.packages.as_str());
        if let Some(command) = &self.init.package_command {
            push_text(&mut out, "--package-command");
            push_text(&mut out, command.as_str());
        }
        assert(out.deep_view() =~= bootstrap_args(self@, user@, payload@));
        out
    }

    /// Puts the invocation together from the manifest, the path of the
    /// executable to inject, the invoking user and the encoded init lists.
    pub fn assemble(&self, exe: &str, user: &HostUser, payload: &InitPayload) -> (out: Vec<String>)
        ensures
            out.deep_view() == invocation(self@, exe@, user@, payload@),
    {
        let mut out = self.head();
        append_texts(&mut out, self.share());
        append_texts(&mut out, entrypoint(exe));
        append_texts(&mut out, self.bootstrap(user, payload));
        out
    }

    /// Compiles the manifest for the given user. `exe` is the path of the
    /// running executable, or `None` where it could not be resolved.
    pub fn compile(&self, exe: Option<&str>, user: &HostUser) -> (r: Result<
        Vec<String>,
        CreateError,
    >)
        ensures
            outcome(r) == compiled(self@, exe.deep_view(), user@),
    {
        let path = match exe {
            Some(path) => path,
            None => {
                return Err(CreateError::SelfPathUnavailable);
            },
        };
        match self.init.encode() {
            Ok(payload) => Ok(self.assemble(path, user, &payload)),
            Err(e) => Err(e),
        }
    }

    /// Compiles the manifest on behalf of the user that the host reports,
    /// with the given numeric ids.
    pub fn create_command(&self, exe: Option<&str>, uid: u32, gid: u32) -> (r: Result<
        Vec<String>,
        CreateError,
    >)
        ensures
            exists|name: Text|
                outcome(r) == #[trigger] created(self@, exe.deep_view(), name, uid, gid),
    {
        if exe.is_none() {
            assert(outcome(Err(CreateError::SelfPathUnavailable)) == created(
                self@,
                exe.deep_view(),
                Seq::empty(),
                uid,
                gid,
            ));
            return Err(CreateError::SelfPathUnavailable);
        }
        let user = HostUser::current(uid, gid);
        let r = self.compile(exe, &user);
        assert(outcome(r) == created(self@, exe.deep_view(), user.name@, uid, gid));
        r
    }
}

} // verus!
