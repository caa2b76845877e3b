//! What holds of every invocation, stated over the model and proved once.

use vstd::prelude::*;
use crate::command::{
    compiled, entrypoint_args, entrypoint_path, head_args, invocation, outcome, payload_of,
    CreateError, PayloadSpec,
};
use crate::host::HostUserSpec;
use crate::json::json_array;
use crate::manifest::{Container, Manifest, MountSpec};
use crate::share_args::{
    empty_mode, mode_value, mount_args, mount_segments, mount_value, security_args, share_args,
};
use crate::text::{decimal, join, lemma_join_push, Text};

verus! {

/// Where the `--network` flag stands in an invocation: behind the program
/// name, the sub-command, the additional arguments and the eight tokens of
/// host name, name, label and user.
pub open spec fn share_offset(m: Manifest) -> int {
    10 + m.additional_args.len() as int
}

/// Where the `--mount` flag of the injected entrypoint stands: behind the
/// network and IPC modes, the security options and the manifest's mounts.
pub open spec fn entrypoint_offset(m: Manifest) -> int {
    share_offset(m) + 4 + 2 * m.share.sec.len() + 2 * m.share.mounts.len()
}

/// Where the image stands: behind the four tokens of the entrypoint.
pub open spec fn image_offset(m: Manifest) -> int {
    entrypoint_offset(m) + 4
}

/// The number of tokens of an invocation.
pub proof fn lemma_invocation_len(m: Manifest, exe: Text, user: HostUserSpec, payload: PayloadSpec)
    ensures
        head_args(m).len() == share_offset(m),
        share_args(m.share).len() == 4 + 2 * m.share.sec.len() + 2 * m.share.mounts.len(),
        entrypoint_args(exe).len() == 4,
        invocation(m, exe, user, payload).len() == image_offset(m) + 13 + (
        if m.init.package_command is Some {
            2int
        } else {
            0int
        }),
{
}

/// An invocation starts with the engine and its sub-command, then hands on
/// the additional arguments as they are, then names the container.
pub proof fn lemma_head(m: Manifest, exe: Text, user: HostUserSpec, payload: PayloadSpec)
    ensures
        invocation(m, exe, user, payload).subrange(0, share_offset(m)) == head_args(m),
        invocation(m, exe, user, payload)[0] == "podman"@,
        invocation(m, exe, user, payload)[1] == "create"@,
        invocation(m, exe, user, payload).subrange(2, 2 + m.additional_args.len() as int)
            == m.additional_args,
        invocation(m, exe, user, payload).subrange(
            2 + m.additional_args.len() as int,
            share_offset(m),
        ) == seq![
            "--hostname"@,
            m.name,
            "--name"@,
            m.name,
            "--label"@,
            "\"manager=pocket-dimension\""@,
            "--user"@,
            "root:root"@,
        ],
{
    let inv = invocation(m, exe, user, payload);
    lemma_invocation_len(m, exe, user, payload);
    assert(inv.subrange(0, share_offset(m)) =~= head_args(m));
    assert(inv.subrange(2, 2 + m.additional_args.len() as int) =~= m.additional_args);
    assert(inv.subrange(2 + m.additional_args.len() as int, share_offset(m)) =~= seq![
        "--hostname"@,
        m.name,
        "--name"@,
        m.name,
        "--label"@,
        "\"manager=pocket-dimension\""@,
        "--user"@,
        "root:root"@,
    ]);
}

/// The network and IPC flags are always there, each with a value. A mode
/// that the manifest leaves out is passed as the token `""` of two quote
/// characters: the flag is never dropped.
pub proof fn lemma_modes_always_passed(
    m: Manifest,
    exe: Text,
    user: HostUserSpec,
    payload: PayloadSpec,
)
    ensures
        invocation(m, exe, user, payload)[share_offset(m)] == "--network"@,
        invocation(m, exe, user, payload)[share_offset(m) + 1] == mode_value(m.share.net),
        invocation(m, exe, user, payload)[share_offset(m) + 2] == "--ipc"@,
        invocation(m, exe, user, payload)[share_offset(m) + 3] == mode_value(m.share.ipc),
        m.share.net is None ==> invocation(m, exe, user, payload)[share_offset(m) + 1] == seq![
            '"',
            '"',
        ],
        m.share.ipc is None ==> invocation(m, exe, user, payload)[share_offset(m) + 3] == seq![
            '"',
            '"',
        ],
{
    reveal_strlit("\"\"");
    assert(empty_mode() =~= seq!['"', '"']);
}

/// The security options follow the IPC mode, each behind a `--security-opt`
/// of its own, in the order of the manifest, and nothing stands between them:
/// a manifest with `n` options gives `n` pairs, and the mounts come next.
pub proof fn lemma_security_options_in_order(
    m: Manifest,
    exe: Text,
    user: HostUserSpec,
    payload: PayloadSpec,
)
    ensures
        invocation(m, exe, user, payload).subrange(
            share_offset(m) + 4,
            share_offset(m) + 4 + 2 * m.share.sec.len(),
        ) == security_args(m.share.sec),
        security_args(m.share.sec).len() == 2 * m.share.sec.len(),
        forall|i: int|
            0 <= i < m.share.sec.len() ==> {
                &&& #[trigger] invocation(m, exe, user, payload)[share_offset(m) + 4 + 2 * i]
                    == "--security-opt"@
                &&& invocation(m, exe, user, payload)[share_offset(m) + 4 + 2 * i + 1]
                    == m.share.sec[i]
            },
{
    let inv = invocation(m, exe, user, payload);
    let from = share_offset(m) + 4;
    assert(inv.subrange(from, from + 2 * m.share.sec.len()) =~= security_args(m.share.sec));
    assert forall|i: int| 0 <= i < m.share.sec.len() implies {
        &&& #[trigger] inv[from + 2 * i] == "--security-opt"@
        &&& inv[from + 2 * i + 1] == m.share.sec[i]
    } by {
        assert(inv[from + 2 * i] == security_args(m.share.sec)[2 * i]);
        assert(inv[from + 2 * i + 1] == security_args(m.share.sec)[2 * i + 1]);
    }
}

/// The mounts of the manifest follow the security options, each value behind
/// a `--mount` of its own, in the order of the manifest.
pub proof fn lemma_mounts_in_order(
    m: Manifest,
    exe: Text,
    user: HostUserSpec,
    payload: PayloadSpec,
)
    ensures
        invocation(m, exe, user, payload).subrange(
            share_offset(m) + 4 + 2 * m.share.sec.len(),
            entrypoint_offset(m),
        ) == mount_args(m.share.mounts),
        forall|i: int|
            0 <= i < m.share.mounts.len() ==> {
                &&& #[trigger] invocation(m, exe, user, payload)[share_offset(m) + 4 + 2
                    * m.share.sec.len() + 2 * i] == "--mount"@
                &&& invocation(m, exe, user, payload)[share_offset(m) + 4 + 2
                    * m.share.sec.len() + 2 * i + 1] == mount_value(m.share.mounts[i])
            },
{
    let inv = invocation(m, exe, user, payload);
    let from = share_offset(m) + 4 + 2 * m.share.sec.len();
    assert(inv.subrange(from, entrypoint_offset(m)) =~= mount_args(m.share.mounts));
    assert forall|i: int| 0 <= i < m.share.mounts.len() implies {
        &&& #[trigger] inv[from + 2 * i] == "--mount"@
        &&& inv[from + 2 * i + 1] == mount_value(m.share.mounts[i])
    } by {
        assert(inv[from + 2 * i] == mount_args(m.share.mounts)[2 * i]);
        assert(inv[from + 2 * i + 1] == mount_args(m.share.mounts)[2 * i + 1]);
    }
}

/// Each option of a mount behind a comma of its own.
pub open spec fn options_suffix(opts: Seq<Text>) -> Text
    decreases opts.len(),
{
    if opts.len() == 0 {
        Seq::empty()
    } else {
        options_suffix(opts.drop_last()).push(',') + opts.last()
    }
}

/// The value of a mount, written out: `type=`, the type, then `,src=` and
/// the source if there is one, then `,dst=` and the destination, then each
/// option behind a comma. A mount without a source has no `src=` segment.
pub proof fn lemma_mount_value_written_out(m: MountSpec)
    ensures
        mount_value(m) == match m.src {
            Some(src) => "type="@ + m.ty + ",src="@ + src + ",dst="@ + m.dst + options_suffix(
                m.opts,
            ),
            None => "type="@ + m.ty + ",dst="@ + m.dst + options_suffix(m.opts),
        },
    decreases m.opts.len(),
{
    reveal_strlit(",src=");
    reveal_strlit("src=");
    reveal_strlit(",dst=");
    reveal_strlit("dst=");
    let fixed = MountSpec { opts: Seq::empty(), ..m };
    if m.opts.len() == 0 {
        assert(m.opts =~= Seq::<Text>::empty());
        reveal_with_fuel(join, 3);
        match m.src {
            Some(src) => {
                let segments = seq!["type="@ + m.ty, "src="@ + src, "dst="@ + m.dst];
                assert(mount_segments(m) =~= segments);
                assert(segments.drop_last() =~= seq!["type="@ + m.ty, "src="@ + src]);
                assert(segments.drop_last().drop_last() =~= seq!["type="@ + m.ty]);
                assert(mount_value(m) =~= "type="@ + m.ty + ",src="@ + src + ",dst="@ + m.dst);
            },
            None => {
                let segments = seq!["type="@ + m.ty, "dst="@ + m.dst];
                assert(mount_segments(m) =~= segments);
                assert(segments.drop_last() =~= seq!["type="@ + m.ty]);
                assert(mount_value(m) =~= "type="@ + m.ty + ",dst="@ + m.dst);
            },
        }
        assert(mount_value(m) =~= match m.src {
            Some(src) => "type="@ + m.ty + ",src="@ + src + ",dst="@ + m.dst + options_suffix(
                m.opts,
            ),
            None => "type="@ + m.ty + ",dst="@ + m.dst + options_suffix(m.opts),
        });
    } else {
        let shorter = MountSpec { opts: m.opts.drop_last(), ..m };
        lemma_mount_value_written_out(shorter);
        assert(mount_segments(shorter).push(m.opts.last()) =~= mount_segments(m));
        lemma_join_push(mount_segments(shorter), ',', m.opts.last());
        assert(mount_value(m) =~= mount_value(shorter).push(',') + m.opts.last());
        assert(mount_value(m) =~= match m.src {
            Some(src) => "type="@ + m.ty + ",src="@ + src + ",dst="@ + m.dst + options_suffix(
                m.opts,
            ),
            None => "type="@ + m.ty + ",dst="@ + m.dst + options_suffix(m.opts),
        });
    }
}

/// The value of a mount does not end in a comma, unless its last segment is
/// empty or ends in one itself.
pub proof fn lemma_no_trailing_separator(m: MountSpec)
    requires
        mount_segments(m).last().len() > 0,
        mount_segments(m).last().last() != ',',
    ensures
        mount_value(m).len() > 0,
        mount_value(m).last() != ',',
{
    let segments = mount_segments(m);
    if segments.len() > 1 {
        assert(mount_value(m) == join(segments.drop_last(), ',').push(',') + segments.last());
    }
}

/// Behind the manifest's mounts stands the one mount that injects the running
/// executable: a read-only bind mount from `exe` to the entrypoint path. The
/// `--entrypoint` flag follows and points at that same path.
pub proof fn lemma_entrypoint_injected(
    m: Manifest,
    exe: Text,
    user: HostUserSpec,
    payload: PayloadSpec,
)
    ensures
        invocation(m, exe, user, payload)[entrypoint_offset(m)] == "--mount"@,
        invocation(m, exe, user, payload)[entrypoint_offset(m) + 1]
            == "type=bind,source="@ + exe + ",dst="@ + entrypoint_path() + ",ro=true"@,
        invocation(m, exe, user, payload)[entrypoint_offset(m) + 2] == "--entrypoint"@,
        invocation(m, exe, user, payload)[entrypoint_offset(m) + 3] == entrypoint_path(),
{
}

/// The image follows the entrypoint, then the invoking user: name, user id
/// and group id, the ids in decimal notation.
pub proof fn lemma_image_and_user(
    m: Manifest,
    exe: Text,
    user: HostUserSpec,
    payload: PayloadSpec,
)
    ensures
        invocation(m, exe, user, payload)[image_offset(m)] == m.image,
        invocation(m, exe, user, payload)[image_offset(m) + 1] == "--username"@,
        invocation(m, exe, user, payload)[image_offset(m) + 2] == user.name,
        invocation(m, exe, user, payload)[image_offset(m) + 3] == "--uid"@,
        invocation(m, exe, user, payload)[image_offset(m) + 4] == decimal(user.uid),
        invocation(m, exe, user, payload)[image_offset(m) + 5] == "--gid"@,
        invocation(m, exe, user, payload)[image_offset(m) + 6] == decimal(user.gid),
{
}

/// The three init lists are handed over apart from each other, each behind a
/// flag of its own.
pub proof fn lemma_payload_passed(
    m: Manifest,
    exe: Text,
    user: HostUserSpec,
    payload: PayloadSpec,
)
    ensures
        invocation(m, exe, user, payload)[image_offset(m) + 7] == "--pre-init"@,
        invocation(m, exe, user, payload)[image_offset(m) + 8] == payload.pre_init,
        invocation(m, exe, user, payload)[image_offset(m) + 9] == "--init"@,
        invocation(m, exe, user, payload)[image_offset(m) + 10] == payload.init,
        invocation(m, exe, user, payload)[image_offset(m) + 11] == "--packages"@,
        invocation(m, exe, user, payload)[image_offset(m) + 12] == payload.packages,
{
}

/// In a compiled invocation each of the three init lists stands as the JSON
/// encoding of that list alone.
pub proof fn lemma_init_lists_encoded_apart(
    m: Manifest,
    exe: Option<Text>,
    user: HostUserSpec,
    args: Seq<Text>,
)
    requires
        compiled(m, exe, user) == Ok::<Seq<Text>, CreateError>(args),
    ensures
        json_array(m.init.pre_init) == Some(args[image_offset(m) + 8]),
        json_array(m.init.init) == Some(args[image_offset(m) + 10]),
        json_array(m.init.packages) == Some(args[image_offset(m) + 12]),
{
    lemma_payload_passed(m, exe->0, user, payload_of(m.init)->0);
}

/// A manifest without a package command gives an invocation that ends with
/// the encoded package list. With one, the invocation goes on with
/// `--package-command` and the command as the manifest has it, and ends there.
pub proof fn lemma_package_command(
    m: Manifest,
    exe: Text,
    user: HostUserSpec,
    payload: PayloadSpec,
)
    ensures
        match m.init.package_command {
            None => invocation(m, exe, user, payload).len() == image_offset(m) + 13,
            Some(command) => {
                &&& invocation(m, exe, user, payload).len() == image_offset(m) + 15
                &&& invocation(m, exe, user, payload)[image_offset(m) + 13]
                    == "--package-command"@
                &&& invocation(m, exe, user, payload)[image_offset(m) + 14] == command
            },
        },
{
}

/// Compiling is a function of the manifest, the executable's path and the
/// invoking user: two runs on the same values end alike, with the same error
/// or with the same arguments, character for character.
pub proof fn lemma_compile_deterministic(
    first: Container,
    second: Container,
    exe: Option<Text>,
    user: HostUserSpec,
    r1: Result<Vec<String>, CreateError>,
    r2: Result<Vec<String>, CreateError>,
)
    requires
        first@ == second@,
        outcome(r1) == compiled(first@, exe, user),
        outcome(r2) == compiled(second@, exe, user),
    ensures
        outcome(r1) == outcome(r2),
        r1 matches Ok(a) ==> r2 matches Ok(b) && a.deep_view() == b.deep_view(),
        r1 matches Err(e) ==> r2 == Err::<Vec<String>, CreateError>(e),
{
}

} // verus!
