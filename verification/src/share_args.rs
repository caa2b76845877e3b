//! The flag fragments that the `share` section of a manifest turns into.

use vstd::prelude::*;
use vstd::string::StringExecFns;
use crate::manifest::{Container, ContainerMount, MountSpec, ShareSpec};
use crate::text::{join, lemma_join_push, Text};

verus! {

/// What is passed for a namespace mode that the manifest leaves out: the
/// two-character token `""`, never an omitted flag.
pub open spec fn empty_mode() -> Text {
    "\"\""@
}

/// The value passed for a namespace mode.
pub open spec fn mode_value(mode: Option<Text>) -> Text {
    match mode {
        Some(m) => m,
        None => empty_mode(),
    }
}

/// The `--network` flag and its value.
pub open spec fn network_args(share: ShareSpec) -> Seq<Text> {
    seq!["--network"@, mode_value(share.net)]
}

/// The `--ipc` flag and its value.
pub open spec fn ipc_args(share: ShareSpec) -> Seq<Text> {
    seq!["--ipc"@, mode_value(share.ipc)]
}

/// Each value preceded by `flag`: `flag, values[0], flag, values[1], ...`.
pub open spec fn flag_pairs(flag: Text, values: Seq<Text>) -> Seq<Text> {
    Seq::new(
        2 * values.len(),
        |i: int|
            if i % 2 == 0 {
                flag
            } else {
                values[i / 2]
            },
    )
}

/// The security options, each behind its own `--security-opt`.
pub open spec fn security_args(sec: Seq<Text>) -> Seq<Text> {
    flag_pairs("--security-opt"@, sec)
}

/// The source of a mount as a segment of its own, or nothing.
pub open spec fn source_segment(src: Option<Text>) -> Seq<Text> {
    match src {
        Some(s) => seq!["src="@ + s],
        None => Seq::empty(),
    }
}

/// The segments of a mount's value: type, source if there is one,
/// destination, then the options.
pub open spec fn mount_segments(m: MountSpec) -> Seq<Text> {
    seq!["type="@ + m.ty] + source_segment(m.src) + seq!["dst="@ + m.dst] + m.opts
}

/// The value of one `--mount` flag: the segments joined by commas.
pub open spec fn mount_value(m: MountSpec) -> Text {
    join(mount_segments(m), ',')
}

/// The mounts in manifest order, each value behind its own `--mount`.
pub open spec fn mount_args(mounts: Seq<MountSpec>) -> Seq<Text> {
    flag_pairs("--mount"@, mounts.map_values(|m: MountSpec| mount_value(m)))
}

/// Everything that the `share` section contributes: network mode, IPC mode,
/// security options, mounts.
pub open spec fn share_args(share: ShareSpec) -> Seq<Text> {
    network_args(share) + ipc_args(share) + security_args(share.sec) + mount_args(share.mounts)
}

/// One more value adds one more pair at the end.
pub proof fn lemma_flag_pairs_push(flag: Text, values: Seq<Text>, value: Text)
    ensures
        flag_pairs(flag, values.push(value)) == flag_pairs(flag, values).push(flag).push(value),
{
    assert(flag_pairs(flag, values.push(value)) =~= flag_pairs(flag, values).push(flag).push(
        value,
    ));
}

impl ContainerMount {
    /// The value that `--mount` takes for this mount.
    pub fn arg(&self) -> (arg: String)
        ensures
            arg@ == mount_value(self@),
    {
        let mut arg = String::from_str("type=");
        arg.append(self.ty.as_str());
        let ghost mut segments: Seq<Text> = seq!["type="@ + self.ty@];
        if let Some(src) = &self.src {
            arg.append(",src=");
            arg.append(src.as_str());
            proof {
                reveal_strlit(",src=");
                reveal_strlit("src=");
                lemma_join_push(segments, ',', "src="@ + src@);
                assert(arg@ =~= join(segments.push("src="@ + src@), ','));
                segments = segments.push("src="@ + src@);
            }
        }
        arg.append(",dst=");
        arg.append(self.dst.as_str());
        proof {
            reveal_strlit(",dst=");
            reveal_strlit("dst=");
            lemma_join_push(segments, ',', "dst="@ + self.dst@);
            assert(arg@ =~= join(segments.push("dst="@ + self.dst@), ','));
            segments = segments.push("dst="@ + self.dst@);
            assert(segments =~= mount_segments(self@).take(segments.len() as int));
            assert(self@.opts.take(0) =~= Seq::<Text>::empty());
        }
        let ghost fixed = segments;
        let mut i: usize = 0;
        while i < self.opts.len()
            invariant
                i <= self.opts.len(),
                fixed.len() > 0,
                mount_segments(self@) == fixed + self@.opts,
                arg@ == join(fixed + self@.opts.take(i as int), ','),
            decreases self.opts.len() - i,
        {
            arg.append(",");
            arg.append(self.opts[i].as_str());
            proof {
                reveal_strlit(",");
                let before = fixed + self@.opts.take(i as int);
                lemma_join_push(before, ',', self.opts[i as int]@);
                assert(before.push(self.opts[i as int]@) =~= fixed + self@.opts.take(i + 1));
                assert(arg@ =~= join(before, ',').push(',') + self.opts[i as int]@);
            }
            i += 1;
        }
        proof {
            assert(self@.opts.take(i as int) =~= self@.opts);
        }
        arg
    }
}

impl Container {
    /// The `--network` flag and its value.
    pub fn net_arg(&self) -> (r: [&str; 2])
        ensures
            r.deep_view() == network_args(self@.share),
    {
        let value: &str = match &self.share.net {
            Some(mode) => mode.as_str(),
            None => "\"\"",
        };
        let r = ["--network", value];
        assert(r.deep_view() =~= network_args(self@.share));
        r
    }

    /// The `--ipc` flag and its value.
    pub fn ipc_arg(&self) -> (r: [&str; 2])
        ensures
            r.deep_view() == ipc_args(self@.share),
    {
        let value: &str = match &self.share.ipc {
            Some(mode) => mode.as_str(),
            None => "\"\"",
        };
        let r = ["--ipc", value];
        assert(r.deep_view() =~= ipc_args(self@.share));
        r
    }

    /// One `--security-opt` pair for each security option, in manifest order.
    pub fn sec_args(&self) -> (out: Vec<&str>)
        ensures
            out.deep_view() == security_args(self@.share.sec),
    {
        let mut out: Vec<&str> = Vec::new();
        let mut i: usize = 0;
        proof {
            assert(self@.share.sec.take(0) =~= Seq::<Text>::empty());
            assert(out.deep_view() =~= security_args(self@.share.sec.take(0)));
        }
        while i < self.share.sec.len()
            invariant
                i <= self.share.sec.len(),
                out.deep_view() == security_args(self@.share.sec.take(i as int)),
            decreases self.share.sec.len() - i,
        {
            let ghost before = out.deep_view();
            out.push("--security-opt");
            out.push(self.share.sec[i].as_str());
            proof {
                let option = self.share.sec[i as int]@;
                lemma_flag_pairs_push("--security-opt"@, self@.share.sec.take(i as int), option);
                assert(self@.share.sec.take(i as int).push(option) =~= self@.share.sec.take(
                    i + 1,
                ));
                assert(out.deep_view() =~= before.push("--security-opt"@).push(option));
            }
            i += 1;
        }
        proof {
            assert(self@.share.sec.take(i as int) =~= self@.share.sec);
        }
        out
    }

    /// One `--mount` pair for each mount, in manifest order.
    pub fn mnt_args(&self) -> (out: Vec<String>)
        ensures
            out.deep_view() == mount_args(self@.share.mounts),
    {
        let mut out: Vec<String> = Vec::new();
        let mut i: usize = 0;
        proof {
            assert(self@.share.mounts.take(0) =~= Seq::<MountSpec>::empty());
            assert(out.deep_view() =~= mount_args(self@.share.mounts.take(0)));
        }
        while i < self.share.mounts.len()
            invariant
                i <= self.share.mounts.len(),
                out.deep_view() == mount_args(self@.share.mounts.take(i as int)),
            decreases self.share.mounts.len() - i,
        {
            let ghost before = out.deep_view();
            let value = self.share.mounts[i].arg();
            out.push("--mount".to_owned());
            out.push(value);
            proof {
                let done = self@.share.mounts.take(i as int);
                let mount = self.share.mounts[i as int]@;
                let values = done.map_values(|m: MountSpec| mount_value(m));
                lemma_flag_pairs_push("--mount"@, values, mount_value(mount));
                assert(done.push(mount) =~= self@.share.mounts.take(i + 1));
                assert(values.push(mount_value(mount)) =~= done.push(mount).map_values(
                    |m: MountSpec| mount_value(m),
                ));
                assert(out.deep_view() =~= before.push("--mount"@).push(mount_value(mount)));
            }
            i += 1;
        }
        proof {
            assert(self@.share.mounts.take(i as int) =~= self@.share.mounts);
        }
        out
    }
}

} // verus!
