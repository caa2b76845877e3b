//! How often a token stands in an invocation.
//!
//! An invocation mixes what the compiler writes by itself (flags, the label,
//! the entrypoint) with what it takes from the manifest, the user and the
//! payload. A supplied token may spell a flag, so "the flag stands there
//! once" holds up to the tokens that were supplied: the theorems here give
//! the exact count.

use vstd::prelude::*;
use crate::command::{
    bootstrap_args, entrypoint_args, entrypoint_mount, entrypoint_path, head_args, invocation,
    PayloadSpec,
};
use crate::host::HostUserSpec;
use crate::manifest::{Manifest, MountSpec};
use crate::share_args::{
    flag_pairs, lemma_flag_pairs_push, mode_value, mount_args, mount_value, security_args,
    share_args,
};
use crate::text::{decimal, Text};

verus! {

/// How often `token` stands in `tokens`.
pub open spec fn occurrences(tokens: Seq<Text>, token: Text) -> nat
    decreases tokens.len(),
{
    if tokens.len() == 0 {
        0
    } else {
        occurrences(tokens.drop_last(), token) + if tokens.last() == token {
            1nat
        } else {
            0nat
        }
    }
}

/// `n` times the same token.
pub open spec fn repeated(token: Text, n: nat) -> Seq<Text> {
    Seq::new(n, |i: int| token)
}

/// The tokens that the compiler writes by itself, in the order in which they
/// stand: they depend on the manifest only in how many security options and
/// mounts it has and in whether it has a package command, and on `exe` in the
/// mount of the entrypoint.
pub open spec fn fixed_tokens(m: Manifest, exe: Text) -> Seq<Text> {
    seq![
        "podman"@,
        "create"@,
        "--hostname"@,
        "--name"@,
        "--label"@,
        "\"manager=pocket-dimension\""@,
        "--user"@,
        "root:root"@,
        "--network"@,
        "--ipc"@,
    ] + repeated("--security-opt"@, m.share.sec.len()) + repeated(
        "--mount"@,
        m.share.mounts.len(),
    ) + seq![
        "--mount"@,
        entrypoint_mount(exe),
        "--entrypoint"@,
        entrypoint_path(),
        "--username"@,
        "--uid"@,
        "--gid"@,
        "--pre-init"@,
        "--init"@,
        "--packages"@,
    ] + if m.init.package_command is Some {
        seq!["--package-command"@]
    } else {
        Seq::empty()
    }
}

/// The tokens that stand for what was supplied, in the order in which they
/// stand: additional arguments, name (twice), network and IPC mode, security
/// options, mount values, image, user, encoded init lists, package command.
pub open spec fn supplied_tokens(m: Manifest, user: HostUserSpec, payload: PayloadSpec) -> Seq<
    Text,
> {
    m.additional_args + seq![m.name, m.name, mode_value(m.share.net), mode_value(m.share.ipc)]
        + m.share.sec + m.share.mounts.map_values(|mount: MountSpec| mount_value(mount)) + seq![
        m.image,
        user.name,
        decimal(user.uid),
        decimal(user.gid),
        payload.pre_init,
        payload.init,
        payload.packages,
    ] + match m.init.package_command {
        Some(command) => seq![command],
        None => Seq::empty(),
    }
}

/// One more token at the end counts if it is the one looked for.
pub proof fn lemma_occurrences_push(tokens: Seq<Text>, last: Text, token: Text)
    ensures
        occurrences(tokens.push(last), token) == occurrences(tokens, token) + if last == token {
            1nat
        } else {
            0nat
        },
{
    assert(tokens.push(last).drop_last() =~= tokens);
}

/// The occurrences in two lists add up.
pub proof fn lemma_occurrences_concat(a: Seq<Text>, b: Seq<Text>, token: Text)
    ensures
        occurrences(a + b, token) == occurrences(a, token) + occurrences(b, token),
    decreases b.len(),
{
    if b.len() == 0 {
        assert(a + b =~= a);
    } else {
        lemma_occurrences_concat(a, b.drop_last(), token);
        assert((a + b).drop_last() =~= a + b.drop_last());
    }
}

/// A repeated token occurs as often as it is repeated, and no other does.
pub proof fn lemma_occurrences_repeated(flag: Text, n: nat, token: Text)
    ensures
        occurrences(repeated(flag, n), token) == if flag == token {
            n
        } else {
            0
        },
    decreases n,
{
    if n > 0 {
        lemma_occurrences_repeated(flag, (n - 1) as nat, token);
        assert(repeated(flag, n).drop_last() =~= repeated(flag, (n - 1) as nat));
    }
}

/// In a list of flag and value pairs, the flag counts once for each value,
/// and the values count for themselves.
pub proof fn lemma_occurrences_flag_pairs(flag: Text, values: Seq<Text>, token: Text)
    ensures
        occurrences(flag_pairs(flag, values), token) == occurrences(
            repeated(flag, values.len()),
            token,
        ) + occurrences(values, token),
    decreases values.len(),
{
    if values.len() == 0 {
        assert(flag_pairs(flag, values) =~= Seq::<Text>::empty());
    } else {
        let front = values.drop_last();
        lemma_occurrences_flag_pairs(flag, front, token);
        lemma_flag_pairs_push(flag, front, values.last());
        assert(front.push(values.last()) =~= values);
        lemma_occurrences_push(flag_pairs(flag, front), flag, token);
        lemma_occurrences_push(flag_pairs(flag, front).push(flag), values.last(), token);
        assert(repeated(flag, values.len()).drop_last() =~= repeated(flag, front.len()));
    }
}

/// One if the two tokens are the same, zero if not.
spec fn hit(at: Text, token: Text) -> nat {
    if at == token {
        1
    } else {
        0
    }
}

/// How often `token` stands among the first `n` of `tokens`, by position.
spec fn hits(tokens: Seq<Text>, n: nat, token: Text) -> nat
    decreases n,
{
    if n == 0 {
        0
    } else {
        hits(tokens, (n - 1) as nat, token) + hit(tokens[n - 1], token)
    }
}

proof fn lemma_occurrences_hits(tokens: Seq<Text>, n: nat, token: Text)
    requires
        n <= tokens.len(),
    ensures
        occurrences(tokens.take(n as int), token) == hits(tokens, n, token),
        n == tokens.len() ==> occurrences(tokens, token) == hits(tokens, n, token),
    decreases n,
{
    if n > 0 {
        lemma_occurrences_hits(tokens, (n - 1) as nat, token);
        assert(tokens.take(n as int).drop_last() =~= tokens.take(n - 1));
    }
    if n == tokens.len() {
        assert(tokens.take(n as int) =~= tokens);
    }
}

spec fn package_flag_hits(m: Manifest, token: Text) -> nat {
    if m.init.package_command is Some {
        hit("--package-command"@, token)
    } else {
        0
    }
}

spec fn package_value_hits(m: Manifest, token: Text) -> nat {
    match m.init.package_command {
        Some(command) => hit(command, token),
        None => 0,
    }
}

proof fn lemma_count_head(m: Manifest, token: Text)
    ensures
        occurrences(head_args(m), token) == hit("podman"@, token) + hit("create"@, token)
            + occurrences(m.additional_args, token) + hit("--hostname"@, token) + hit(
            "--name"@,
            token,
        ) + hit("--label"@, token) + hit("\"manager=pocket-dimension\""@, token) + hit(
            "--user"@,
            token,
        ) + hit("root:root"@, token) + 2 * hit(m.name, token),
{
    let start = seq!["podman"@, "create"@];
    let rest = seq![
        "--hostname"@,
        m.name,
        "--name"@,
        m.name,
        "--label"@,
        "\"manager=pocket-dimension\""@,
        "--user"@,
        "root:root"@,
    ];
    reveal_with_fuel(hits, 9);
    lemma_occurrences_hits(start, 2, token);
    lemma_occurrences_hits(rest, 8, token);
    lemma_occurrences_concat(start, m.additional_args, token);
    lemma_occurrences_concat(start + m.additional_args, rest, token);
}

proof fn lemma_count_share(m: Manifest, token: Text)
    ensures
        occurrences(share_args(m.share), token) == hit("--network"@, token) + hit(
            mode_value(m.share.net),
            token,
        ) + hit("--ipc"@, token) + hit(mode_value(m.share.ipc), token) + occurrences(
            repeated("--security-opt"@, m.share.sec.len()),
            token,
        ) + occurrences(m.share.sec, token) + occurrences(
            repeated("--mount"@, m.share.mounts.len()),
            token,
        ) + occurrences(m.share.mounts.map_values(|mount: MountSpec| mount_value(mount)), token),
{
    let share = m.share;
    let net = seq!["--network"@, mode_value(share.net)];
    let ipc = seq!["--ipc"@, mode_value(share.ipc)];
    let values = share.mounts.map_values(|mount: MountSpec| mount_value(mount));
    reveal_with_fuel(hits, 3);
    lemma_occurrences_hits(net, 2, token);
    lemma_occurrences_hits(ipc, 2, token);
    lemma_occurrences_concat(net, ipc, token);
    lemma_occurrences_concat(net + ipc, security_args(share.sec), token);
    lemma_occurrences_concat(
        net + ipc + security_args(share.sec),
        mount_args(share.mounts),
        token,
    );
    lemma_occurrences_flag_pairs("--security-opt"@, share.sec, token);
    lemma_occurrences_flag_pairs("--mount"@, values, token);
}

proof fn lemma_count_entrypoint(exe: Text, token: Text)
    ensures
        occurrences(entrypoint_args(exe), token) == hit("--mount"@, token) + hit(
            entrypoint_mount(exe),
            token,
        ) + hit("--entrypoint"@, token) + hit(entrypoint_path(), token),
{
    reveal_with_fuel(hits, 5);
    lemma_occurrences_hits(entrypoint_args(exe), 4, token);
}

proof fn lemma_count_bootstrap(m: Manifest, user: HostUserSpec, payload: PayloadSpec, token: Text)
    ensures
        occurrences(bootstrap_args(m, user, payload), token) == hit(m.image, token) + hit(
            "--username"@,
            token,
        ) + hit(user.name, token) + hit("--uid"@, token) + hit(decimal(user.uid), token) + hit(
            "--gid"@,
            token,
        ) + hit(decimal(user.gid), token) + hit("--pre-init"@, token) + hit(
            payload.pre_init,
            token,
        ) + hit("--init"@, token) + hit(payload.init, token) + hit("--packages"@, token) + hit(
            payload.packages,
            token,
        ) + package_flag_hits(m, token) + package_value_hits(m, token),
{
    let pairs = seq![
        m.image,
        "--username"@,
        user.name,
        "--uid"@,
        decimal(user.uid),
        "--gid"@,
        decimal(user.gid),
        "--pre-init"@,
        payload.pre_init,
        "--init"@,
        payload.init,
        "--packages"@,
        payload.packages,
    ];
    reveal_with_fuel(hits, 14);
    lemma_occurrences_hits(pairs, 13, token);
    match m.init.package_command {
        Some(command) => {
            lemma_occurrences_hits(seq!["--package-command"@, command], 2, token);
            lemma_occurrences_concat(pairs, seq!["--package-command"@, command], token);
        },
        None => {
            lemma_occurrences_concat(pairs, Seq::empty(), token);
        },
    }
}

proof fn lemma_count_fixed(m: Manifest, exe: Text, token: Text)
    ensures
        occurrences(fixed_tokens(m, exe), token) == hit("podman"@, token) + hit("create"@, token)
            + hit("--hostname"@, token) + hit("--name"@, token) + hit("--label"@, token) + hit(
            "\"manager=pocket-dimension\""@,
            token,
        ) + hit("--user"@, token) + hit("root:root"@, token) + hit("--network"@, token) + hit(
            "--ipc"@,
            token,
        ) + occurrences(repeated("--security-opt"@, m.share.sec.len()), token) + occurrences(
            repeated("--mount"@, m.share.mounts.len()),
            token,
        ) + hit("--mount"@, token) + hit(entrypoint_mount(exe), token) + hit(
            "--entrypoint"@,
            token,
        ) + hit(entrypoint_path(), token) + hit("--username"@, token) + hit("--uid"@, token)
            + hit("--gid"@, token) + hit("--pre-init"@, token) + hit("--init"@, token) + hit(
            "--packages"@,
            token,
        ) + package_flag_hits(m, token),
{
    let first = seq![
        "podman"@,
        "create"@,
        "--hostname"@,
        "--name"@,
        "--label"@,
        "\"manager=pocket-dimension\""@,
        "--user"@,
        "root:root"@,
        "--network"@,
        "--ipc"@,
    ];
    let sec_flags = repeated("--security-opt"@, m.share.sec.len());
    let mount_flags = repeated("--mount"@, m.share.mounts.len());
    let second = seq![
        "--mount"@,
        entrypoint_mount(exe),
        "--entrypoint"@,
        entrypoint_path(),
        "--username"@,
        "--uid"@,
        "--gid"@,
        "--pre-init"@,
        "--init"@,
        "--packages"@,
    ];
    let last = if m.init.package_command is Some {
        seq!["--package-command"@]
    } else {
        Seq::empty()
    };
    reveal_with_fuel(hits, 11);
    lemma_occurrences_hits(first, 10, token);
    lemma_occurrences_hits(second, 10, token);
    lemma_occurrences_hits(last, last.len(), token);
    lemma_occurrences_concat(first, sec_flags, token);
    lemma_occurrences_concat(first + sec_flags, mount_flags, token);
    lemma_occurrences_concat(first + sec_flags + mount_flags, second, token);
    lemma_occurrences_concat(first + sec_flags + mount_flags + second, last, token);
}

proof fn lemma_count_supplied(m: Manifest, user: HostUserSpec, payload: PayloadSpec, token: Text)
    ensures
        occurrences(supplied_tokens(m, user, payload), token) == occurrences(
            m.additional_args,
            token,
        ) + 2 * hit(m.name, token) + hit(mode_value(m.share.net), token) + hit(
            mode_value(m.share.ipc),
            token,
        ) + occurrences(m.share.sec, token) + occurrences(
            m.share.mounts.map_values(|mount: MountSpec| mount_value(mount)),
            token,
        ) + hit(m.image, token) + hit(user.name, token) + hit(decimal(user.uid), token) + hit(
            decimal(user.gid),
            token,
        ) + hit(payload.pre_init, token) + hit(payload.init, token) + hit(
            payload.packages,
            token,
        ) + package_value_hits(m, token),
{
    let names = seq![m.name, m.name, mode_value(m.share.net), mode_value(m.share.ipc)];
    let values = m.share.mounts.map_values(|mount: MountSpec| mount_value(mount));
    let told = seq![
        m.image,
        user.name,
        decimal(user.uid),
        decimal(user.gid),
        payload.pre_init,
        payload.init,
        payload.packages,
    ];
    let last = match m.init.package_command {
        Some(command) => seq![command],
        None => Seq::empty(),
    };
    reveal_with_fuel(hits, 8);
    lemma_occurrences_hits(names, 4, token);
    lemma_occurrences_hits(told, 7, token);
    lemma_occurrences_hits(last, last.len(), token);
    lemma_occurrences_concat(m.additional_args, names, token);
    lemma_occurrences_concat(m.additional_args + names, m.share.sec, token);
    lemma_occurrences_concat(m.additional_args + names + m.share.sec, values, token);
    lemma_occurrences_concat(m.additional_args + names + m.share.sec + values, told, token);
    lemma_occurrences_concat(
        m.additional_args + names + m.share.sec + values + told,
        last,
        token,
    );
}

/// An invocation holds the fixed tokens and the supplied tokens and nothing
/// else: every token stands in it as often as in those two lists together.
pub proof fn lemma_invocation_tokens(
    m: Manifest,
    exe: Text,
    user: HostUserSpec,
    payload: PayloadSpec,
    token: Text,
)
    ensures
        occurrences(invocation(m, exe, user, payload), token) == occurrences(
            fixed_tokens(m, exe),
            token,
        ) + occurrences(supplied_tokens(m, user, payload), token),
{
    let head = head_args(m);
    let share = share_args(m.share);
    let entry = entrypoint_args(exe);
    let boot = bootstrap_args(m, user, payload);
    lemma_occurrences_concat(head, share, token);
    lemma_occurrences_concat(head + share, entry, token);
    lemma_occurrences_concat(head + share + entry, boot, token);
    lemma_count_head(m, token);
    lemma_count_share(m, token);
    lemma_count_entrypoint(exe, token);
    lemma_count_bootstrap(m, user, payload, token);
    lemma_count_fixed(m, exe, token);
    lemma_count_supplied(m, user, payload, token);
}

/// The lengths of the fixed tokens, and the characters that tell apart
/// those of equal length that the theorems below compare.
proof fn lemma_fixed_token_shapes(exe: Text)
    ensures
        "podman"@.len() == 6,
        "create"@.len() == 6,
        "--hostname"@.len() == 10,
        "--name"@.len() == 6,
        "--label"@.len() == 7,
        "\"manager=pocket-dimension\""@.len() == 26,
        "--user"@.len() == 6,
        "root:root"@.len() == 9,
        "--network"@.len() == 9,
        "--ipc"@.len() == 5,
        "--security-opt"@.len() == 14,
        "--mount"@.len() == 7,
        "--entrypoint"@.len() == 12,
        entrypoint_path().len() == 19,
        "--username"@.len() == 10,
        "--uid"@.len() == 5,
        "--gid"@.len() == 5,
        "--pre-init"@.len() == 10,
        "--init"@.len() == 6,
        "--packages"@.len() == 10,
        "--package-command"@.len() == 17,
        entrypoint_mount(exe).len() == 49 + exe.len(),
        "--mount"@[2] == 'm',
        "--label"@[2] == 'l',
        "--network"@[0] == '-',
        "root:root"@[0] == 'r',
        "--ipc"@[2] == 'i',
        "--uid"@[2] == 'u',
        "--gid"@[2] == 'g',
{
    reveal_strlit("podman");
    reveal_strlit("create");
    reveal_strlit("--hostname");
    reveal_strlit("--name");
    reveal_strlit("--label");
    reveal_strlit("\"manager=pocket-dimension\"");
    reveal_strlit("--user");
    reveal_strlit("root:root");
    reveal_strlit("--network");
    reveal_strlit("--ipc");
    reveal_strlit("--security-opt");
    reveal_strlit("--mount");
    reveal_strlit("--entrypoint");
    reveal_strlit("/usr/bin/entrypoint");
    reveal_strlit("--username");
    reveal_strlit("--uid");
    reveal_strlit("--gid");
    reveal_strlit("--pre-init");
    reveal_strlit("--init");
    reveal_strlit("--packages");
    reveal_strlit("--package-command");
    reveal_strlit("type=bind,source=");
    reveal_strlit(",dst=");
    reveal_strlit(",ro=true");
}

/// `--network` and `--ipc` each stand in an invocation once, and once more
/// for each supplied token that spells them.
pub proof fn lemma_mode_flags_count(
    m: Manifest,
    exe: Text,
    user: HostUserSpec,
    payload: PayloadSpec,
)
    ensures
        occurrences(invocation(m, exe, user, payload), "--network"@) == 1 + occurrences(
            supplied_tokens(m, user, payload),
            "--network"@,
        ),
        occurrences(invocation(m, exe, user, payload), "--ipc"@) == 1 + occurrences(
            supplied_tokens(m, user, payload),
            "--ipc"@,
        ),
{
    lemma_fixed_token_shapes(exe);
    lemma_invocation_tokens(m, exe, user, payload, "--network"@);
    lemma_count_fixed(m, exe, "--network"@);
    lemma_occurrences_repeated("--security-opt"@, m.share.sec.len(), "--network"@);
    lemma_occurrences_repeated("--mount"@, m.share.mounts.len(), "--network"@);
    lemma_invocation_tokens(m, exe, user, payload, "--ipc"@);
    lemma_count_fixed(m, exe, "--ipc"@);
    lemma_occurrences_repeated("--security-opt"@, m.share.sec.len(), "--ipc"@);
    lemma_occurrences_repeated("--mount"@, m.share.mounts.len(), "--ipc"@);
}

/// `--security-opt` stands in an invocation once for each security option
/// of the manifest, and once more for each supplied token that spells it.
pub proof fn lemma_security_flag_count(
    m: Manifest,
    exe: Text,
    user: HostUserSpec,
    payload: PayloadSpec,
)
    ensures
        occurrences(invocation(m, exe, user, payload), "--security-opt"@) == m.share.sec.len()
            + occurrences(supplied_tokens(m, user, payload), "--security-opt"@),
{
    lemma_fixed_token_shapes(exe);
    lemma_invocation_tokens(m, exe, user, payload, "--security-opt"@);
    lemma_count_fixed(m, exe, "--security-opt"@);
    lemma_occurrences_repeated("--security-opt"@, m.share.sec.len(), "--security-opt"@);
    lemma_occurrences_repeated("--mount"@, m.share.mounts.len(), "--security-opt"@);
}

/// `--mount` stands in an invocation once for each mount of the manifest and
/// once for the entrypoint, and once more for each supplied token that
/// spells it.
pub proof fn lemma_mount_flag_count(
    m: Manifest,
    exe: Text,
    user: HostUserSpec,
    payload: PayloadSpec,
)
    ensures
        occurrences(invocation(m, exe, user, payload), "--mount"@) == m.share.mounts.len() + 1
            + occurrences(supplied_tokens(m, user, payload), "--mount"@),
{
    lemma_fixed_token_shapes(exe);
    lemma_invocation_tokens(m, exe, user, payload, "--mount"@);
    lemma_count_fixed(m, exe, "--mount"@);
    lemma_occurrences_repeated("--security-opt"@, m.share.sec.len(), "--mount"@);
    lemma_occurrences_repeated("--mount"@, m.share.mounts.len(), "--mount"@);
}

/// The mount of the entrypoint and the `--entrypoint` flag each stand in an
/// invocation once, and once more for each supplied token that spells them.
/// So there is exactly one of each unless the manifest, the user or the
/// payload brings another.
pub proof fn lemma_entrypoint_count(
    m: Manifest,
    exe: Text,
    user: HostUserSpec,
    payload: PayloadSpec,
)
    ensures
        occurrences(invocation(m, exe, user, payload), entrypoint_mount(exe)) == 1 + occurrences(
            supplied_tokens(m, user, payload),
            entrypoint_mount(exe),
        ),
        occurrences(invocation(m, exe, user, payload), "--entrypoint"@) == 1 + occurrences(
            supplied_tokens(m, user, payload),
            "--entrypoint"@,
        ),
{
    lemma_fixed_token_shapes(exe);
    lemma_invocation_tokens(m, exe, user, payload, entrypoint_mount(exe));
    lemma_count_fixed(m, exe, entrypoint_mount(exe));
    lemma_occurrences_repeated("--security-opt"@, m.share.sec.len(), entrypoint_mount(exe));
    lemma_occurrences_repeated("--mount"@, m.share.mounts.len(), entrypoint_mount(exe));
    lemma_invocation_tokens(m, exe, user, payload, "--entrypoint"@);
    lemma_count_fixed(m, exe, "--entrypoint"@);
    lemma_occurrences_repeated("--security-opt"@, m.share.sec.len(), "--entrypoint"@);
    lemma_occurrences_repeated("--mount"@, m.share.mounts.len(), "--entrypoint"@);
}

/// `--package-command` stands in an invocation once if the manifest has a
/// package command and not at all if it has none, and once more for each
/// supplied token that spells it.
pub proof fn lemma_package_command_flag_count(
    m: Manifest,
    exe: Text,
    user: HostUserSpec,
    payload: PayloadSpec,
)
    ensures
        occurrences(invocation(m, exe, user, payload), "--package-command"@) == (
        if m.init.package_command is Some {
            1nat
        } else {
            0nat
        }) + occurrences(supplied_tokens(m, user, payload), "--package-command"@),
{
    lemma_fixed_token_shapes(exe);
    lemma_invocation_tokens(m, exe, user, payload, "--package-command"@);
    lemma_count_fixed(m, exe, "--package-command"@);
    lemma_occurrences_repeated("--security-opt"@, m.share.sec.len(), "--package-command"@);
    lemma_occurrences_repeated("--mount"@, m.share.mounts.len(), "--package-command"@);
}

} // verus!
