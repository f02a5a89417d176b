//! How the collector reaches a target over ssh: the endpoint a recorded
//! "user@host:port" names, the ssh and scp argument lists, the capture
//! command retried without GPU metrics, and `{var}` expansion.
use vstd::prelude::*;
use crate::text::{
    contains, contains_exec, last_index_char, last_index_char_exec, lemma_last_index_char, owned,
    push_str, replace_all, replace_all_exec, splitn_char, splitn_char_exec, substring,
};

verus! {

/// An ssh endpoint: destination ("user@host") and port.
pub struct SshTarget {
    pub dest: String,
    pub port: String,
    /// The identity file given with -I ("" for ssh's default).
    pub identity: String,
}

/// The destination and port of "user@host:port" (port 22 when none).
pub open spec fn ssh_endpoint(ssh: Seq<char>) -> (Seq<char>, Seq<char>) {
    let parts = splitn_char(ssh, ':', 2);
    (parts[0], if parts.len() > 1 { parts[1] } else { "22"@ })
}

/// The ssh transport for a recorded "user@host:port".
pub fn sshTransport(ssh: &str, identity: &str) -> (t: SshTarget)
    ensures
        (t.dest@, t.port@) == ssh_endpoint(ssh@),
        t.identity@ == identity@,
{
    let parts = splitn_char_exec(ssh, ':', 2);
    proof {
        crate::text::lemma_splitn_len(ssh@, ':', 2);
    }
    assert(parts.deep_view()[0] == parts[0]@);
    let dest = crate::text::copy(&parts[0]);
    let port = if parts.len() > 1 {
        assert(parts.deep_view()[1] == parts[1]@);
        crate::text::copy(&parts[1])
    } else {
        owned("22")
    };
    SshTarget { dest, port, identity: owned(identity) }
}

/// The options every ssh and scp call carries: batch mode, new host
/// keys accepted on first contact (pods are ephemeral), the identity
/// when there is one, then the port flag ("-p" for ssh, "-P" for scp).
pub open spec fn ssh_base(identity: Seq<char>, port_flag: Seq<char>, port: Seq<char>) -> Seq<Seq<char>> {
    seq!["-o"@, "BatchMode=yes"@, "-o"@, "StrictHostKeyChecking=accept-new"@] + (if identity.len() > 0 {
        seq!["-i"@, identity]
    } else {
        seq![]
    }) + seq![port_flag, port]
}

fn push_word(v: &mut Vec<String>, s: String)
    ensures
        final(v).deep_view() == old(v).deep_view().push(s@),
{
    let ghost before = v.deep_view();
    let ghost sv = s@;
    v.push(s);
    assert(v.deep_view() =~= before.push(sv));
}

/// The base options for `t`, with `identity` the identity file resolved
/// for it ("" for none).
pub fn sshBase(identity: &str, portFlag: &str, port: &str) -> (r: Vec<String>)
    ensures
        r.deep_view() == ssh_base(identity@, portFlag@, port@),
{
    let mut args: Vec<String> = Vec::new();
    push_word(&mut args, owned("-o"));
    push_word(&mut args, owned("BatchMode=yes"));
    push_word(&mut args, owned("-o"));
    push_word(&mut args, owned("StrictHostKeyChecking=accept-new"));
    if !identity.is_empty() {
        push_word(&mut args, owned("-i"));
        push_word(&mut args, owned(identity));
    }
    push_word(&mut args, owned(portFlag));
    push_word(&mut args, owned(port));
    assert(args.deep_view() =~= ssh_base(identity@, portFlag@, port@));
    args
}

/// ssh arguments that run `cmd` on the target.
pub fn execArgs(t: &SshTarget, identity: &str, cmd: &str) -> (r: Vec<String>)
    ensures
        r.deep_view() == ssh_base(identity@, "-p"@, t.port@) + seq![t.dest@, cmd@],
{
    let mut args = sshBase(identity, "-p", t.port.as_str());
    push_word(&mut args, crate::text::copy(&t.dest));
    push_word(&mut args, owned(cmd));
    args
}

/// scp arguments that fetch `remote` from the target into `localDir`.
pub fn fetchArgs(t: &SshTarget, identity: &str, remote: &str, localDir: &str) -> (r: Vec<String>)
    ensures
        r.deep_view() == ssh_base(identity@, "-P"@, t.port@) + seq![t.dest@ + ":"@ + remote@, localDir@],
{
    let mut args = sshBase(identity, "-P", t.port.as_str());
    let mut src = crate::text::copy(&t.dest);
    push_str(&mut src, ":");
    push_str(&mut src, remote);
    push_word(&mut args, src);
    push_word(&mut args, owned(localDir));
    args
}

/// The capture command to retry when the target refuses GPU metrics
/// sampling: the same line without the sampling flag; none when the
/// line does not sample.
pub open spec fn without_gpu_metrics(line: Seq<char>) -> Option<Seq<char>> {
    if contains(line, "--gpu-metrics-devices"@) {
        Some(replace_all(line, " --gpu-metrics-devices=cuda-visible"@, ""@))
    } else {
        None
    }
}

pub fn withoutGPUMetrics(line: &str) -> (r: Option<String>)
    ensures
        match (r, without_gpu_metrics(line@)) {
            (Some(a), Some(b)) => a@ == b,
            (None, None) => true,
            _ => false,
        },
{
    if contains_exec(line, "--gpu-metrics-devices") {
        proof {
            reveal_strlit(" --gpu-metrics-devices=cuda-visible");
        }
        Some(replace_all_exec(line, " --gpu-metrics-devices=cuda-visible", ""))
    } else {
        None
    }
}

/// The ssh command line for an interactive shell on "host:port": the
/// port after the last ':' (22 when there is none, or nothing before
/// it).
pub open spec fn ssh_invocation(host: Seq<char>) -> Seq<char> {
    let idx = last_index_char(host, ':');
    if idx > 0 {
        "ssh -p "@ + host.skip(idx + 1) + " "@ + host.take(idx)
    } else {
        "ssh -p 22 "@ + host
    }
}

pub fn sshInvocation(host: &str) -> (r: String)
    ensures
        r@ == ssh_invocation(host@),
{
    proof {
        lemma_last_index_char(host@, ':');
    }
    match last_index_char_exec(host, ':') {
        Some(idx) => if idx > 0 {
            let mut s = owned("ssh -p ");
            let len = crate::text::char_len(host);
            let port = substring(host, idx + 1, len);
            let dest = substring(host, 0, idx);
            push_str(&mut s, port.as_str());
            push_str(&mut s, " ");
            push_str(&mut s, dest.as_str());
            return s;
        },
        None => {},
    }
    let mut s = owned("ssh -p 22 ");
    push_str(&mut s, host);
    s
}

/// `s` with each "{key}" of `vars` replaced by its value, in order.
pub open spec fn expand(s: Seq<char>, vars: Seq<(Seq<char>, Seq<char>)>) -> Seq<char>
    decreases vars.len(),
{
    if vars.len() == 0 {
        s
    } else {
        replace_all(expand(s, vars.drop_last()), "{"@ + vars.last().0 + "}"@, vars.last().1)
    }
}

/// Expands the `{key}` variables of a tool command or artifact path.
pub fn expandOne(s: &str, vars: &Vec<(String, String)>) -> (r: String)
    ensures
        r@ == expand(s@, vars@.map_values(|v: (String, String)| (v.0@, v.1@))),
{
    let ghost vv = vars@.map_values(|v: (String, String)| (v.0@, v.1@));
    let mut e = owned(s);
    let mut i: usize = 0;
    assert(vv.take(0) =~= Seq::<(Seq<char>, Seq<char>)>::empty());
    while i < vars.len()
        invariant
            i <= vars.len(),
            vv == vars@.map_values(|v: (String, String)| (v.0@, v.1@)),
            e@ == expand(s@, vv.take(i as int)),
        decreases vars.len() - i,
    {
        let mut pat = owned("{");
        push_str(&mut pat, vars[i].0.as_str());
        push_str(&mut pat, "}");
        proof {
            reveal_strlit("{");
        }
        proof {
            let t = vv.take(i + 1);
            assert(t.drop_last() =~= vv.take(i as int));
            assert(t.last() == (vars@[i as int].0@, vars@[i as int].1@));
        }
        e = replace_all_exec(e.as_str(), pat.as_str(), vars[i].1.as_str());
        i += 1;
    }
    assert(vv.take(vars.len() as int) =~= vv);
    e
}

} // verus!
