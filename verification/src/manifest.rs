//! The manifest: one declarative description of a container to be created,
//! together with the mathematical model that the contracts speak of.

use vstd::prelude::*;
use crate::text::Text;

verus! {

/// Options for a container filesystem mount, such as a bind or a volume.
///
/// Corresponds to the `--mount` argument of `podman create`.
#[derive(Debug, Clone)]
pub struct ContainerMount {
    /// The mount type.
    pub ty: String,
    /// The mount source path or volume, if any.
    pub src: Option<String>,
    /// The destination path for the mount inside the container.
    pub dst: String,
    /// Further options for the mount, passed on verbatim.
    pub opts: Vec<String>,
}

/// Container host integration options.
#[derive(Debug, Clone)]
pub struct ContainerShare {
    /// Container network mode (`--network`).
    pub net: Option<String>,
    /// Container IPC namespace mode (`--ipc`).
    pub ipc: Option<String>,
    /// Container security options (`--security-opt`); strictly additive.
    pub sec: Vec<String>,
    /// Shorthand for sharing the host's `/dev` and `/sys`; carried, not yet acted on.
    pub dev: bool,
    /// Shorthand for sharing the host's `/mnt` and `/media`; carried, not yet acted on.
    pub mnt: bool,
    /// Additional filesystem mounts, in the order in which they are passed on.
    pub mounts: Vec<ContainerMount>,
}

/// Container initialization options.
#[derive(Debug, Clone)]
pub struct ContainerInit {
    /// Shell commands to execute in the container at the start of container init.
    pub pre_init: Vec<String>,
    /// Shell commands to execute in the container at the end of container init.
    pub init: Vec<String>,
    /// Names of the packages to install during container init.
    pub packages: Vec<String>,
    /// Template command for images with an unrecognized package manager. The
    /// entrypoint replaces `%packages%` in it by the package names. It is
    /// handed on as it is: whether the placeholder is there is not checked.
    pub package_command: Option<String>,
}

/// Top-level container assembly manifest.
#[derive(Debug, Clone)]
pub struct Container {
    pub name: String,
    pub image: String,
    /// Pull policy; informational.
    pub pull: Option<String>,
    /// Additional arguments to pass to `podman create`, right after `create`.
    pub additional_args: Vec<String>,
    pub init: ContainerInit,
    pub share: ContainerShare,
}

/// Model of a [`ContainerMount`].
pub struct MountSpec {
    pub ty: Text,
    pub src: Option<Text>,
    pub dst: Text,
    pub opts: Seq<Text>,
}

/// Model of a [`ContainerShare`].
pub struct ShareSpec {
    pub net: Option<Text>,
    pub ipc: Option<Text>,
    pub sec: Seq<Text>,
    pub dev: bool,
    pub mnt: bool,
    pub mounts: Seq<MountSpec>,
}

/// Model of a [`ContainerInit`].
pub struct InitSpec {
    pub pre_init: Seq<Text>,
    pub init: Seq<Text>,
    pub packages: Seq<Text>,
    pub package_command: Option<Text>,
}

/// Model of a [`Container`].
pub struct Manifest {
    pub name: Text,
    pub image: Text,
    pub pull: Option<Text>,
    pub additional_args: Seq<Text>,
    pub init: InitSpec,
    pub share: ShareSpec,
}

impl View for ContainerMount {
    type V = MountSpec;

    open spec fn view(&self) -> MountSpec {
        MountSpec {
            ty: self.ty@,
            src: self.src.deep_view(),
            dst: self.dst@,
            opts: self.opts.deep_view(),
        }
    }
}

impl View for ContainerShare {
    type V = ShareSpec;

    open spec fn view(&self) -> ShareSpec {
        ShareSpec {
            net: self.net.deep_view(),
            ipc: self.ipc.deep_view(),
            sec: self.sec.deep_view(),
            dev: self.dev,
            mnt: self.mnt,
            mounts: Seq::new(self.mounts@.len(), |i: int| self.mounts@[i]@),
        }
    }
}

impl View for ContainerInit {
    type V = InitSpec;

    open spec fn view(&self) -> InitSpec {
        InitSpec {
            pre_init: self.pre_init.deep_view(),
            init: self.init.deep_view(),
            packages: self.packages.deep_view(),
            package_command: self.package_command.deep_view(),
        }
    }
}

impl View for Container {
    type V = Manifest;

    open spec fn view(&self) -> Manifest {
        Manifest {
            name: self.name@,
            image: self.image@,
            pull: self.pull.deep_view(),
            additional_args: self.additional_args.deep_view(),
            init: self.init@,
            share: self.share@,
        }
    }
}

impl Container {
    /// The same manifest under another name. The name is settled before
    /// compiling: it becomes both the container's name and its host name.
    pub fn with_name(self, name: String) -> (named: Container)
        ensures
            named@ == (Manifest { name: name@, ..self@ }),
    {
        Container {
            name,
            image: self.image,
            pull: self.pull,
            additional_args: self.additional_args,
            init: self.init,
            share: self.share,
        }
    }
}

} // verus!
