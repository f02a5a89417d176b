//! What the platform drivers compute before they talk to a platform:
//! credentials masking, kubectl arguments, RunPod GPU type ids, the
//! container command and the deploy request.
use vstd::prelude::*;
use crate::text::{contains, contains_exec, decimal, int_to_string, join, owned, push_str, replace_char, replace_char_exec, str_eq};

verus! {

/// How a driver authenticates.
pub struct Credentials {
    /// RunPod and Vast.ai.
    pub APIKey: String,
    /// Kubernetes: path to the kubeconfig.
    pub Kubeconfig: String,
    /// Kubernetes: kubeconfig context ("" for the current one).
    pub Context: String,
    /// Kubernetes: target namespace.
    pub Namespace: String,
}

/// What `up` asks a driver for.
pub struct Options {
    /// Catalog model name ("" when none is selected yet).
    pub Model: String,
    pub Runtime: String,
    pub Image: String,
    pub GPUType: String,
    pub GPUCount: i64,
    pub CudaVersions: Vec<String>,
    pub PodID: String,
    /// The serve command for production pods; empty in profile mode.
    pub ServeArgv: Vec<String>,
    pub VolumeID: String,
    pub Variant: String,
    /// "production" or "profile".
    pub Mode: String,
    pub VllmVersion: String,
}

/// The global kubectl flags the credentials select.
pub open spec fn kubectl_args(c: Credentials) -> Seq<Seq<char>> {
    (if c.Kubeconfig@.len() > 0 { seq!["--kubeconfig"@, c.Kubeconfig@] } else { seq![] }) + (
    if c.Context@.len() > 0 { seq!["--context"@, c.Context@] } else { seq![] }) + (
    if c.Namespace@.len() > 0 { seq!["-n"@, c.Namespace@] } else { seq![] })
}

fn push_word(v: &mut Vec<String>, s: String)
    ensures
        final(v).deep_view() == old(v).deep_view().push(s@),
{
    let ghost before = v.deep_view();
    let ghost sv = s@;
    v.push(s);
    assert(v.deep_view() =~= before.push(sv));
}

pub fn kubectlArgs(creds: &Credentials) -> (r: Vec<String>)
    ensures
        r.deep_view() == kubectl_args(*creds),
{
    let mut args: Vec<String> = Vec::new();
    if !creds.Kubeconfig.as_str().is_empty() {
        push_word(&mut args, owned("--kubeconfig"));
        push_word(&mut args, crate::text::copy(&creds.Kubeconfig));
    }
    if !creds.Context.as_str().is_empty() {
        push_word(&mut args, owned("--context"));
        push_word(&mut args, crate::text::copy(&creds.Context));
    }
    if !creds.Namespace.as_str().is_empty() {
        push_word(&mut args, owned("-n"));
        push_word(&mut args, crate::text::copy(&creds.Namespace));
    }
    assert(args.deep_view() =~= kubectl_args(*creds));
    args
}

/// A secret as it may be shown: "****" and its last four bytes; only
/// "****" for four bytes or fewer.
pub open spec fn masked(key: Seq<u8>) -> Seq<u8> {
    let stars = seq![42u8, 42u8, 42u8, 42u8];
    if key.len() <= 4 { stars } else { stars + key.skip(key.len() - 4) }
}

pub fn Mask(key: &Vec<u8>) -> (r: Vec<u8>)
    ensures
        r@ == masked(key@),
{
    let mut r: Vec<u8> = Vec::new();
    r.push(42u8);
    r.push(42u8);
    r.push(42u8);
    r.push(42u8);
    if key.len() <= 4 {
        assert(r@ =~= masked(key@));
        return r;
    }
    let mut i: usize = key.len() - 4;
    while i < key.len()
        invariant
            key.len() > 4,
            key.len() - 4 <= i <= key.len(),
            r@ == seq![42u8, 42u8, 42u8, 42u8] + key@.subrange(key.len() - 4, i as int),
        decreases key.len() - i,
    {
        r.push(key[i]);
        i += 1;
        assert(r@ =~= seq![42u8, 42u8, 42u8, 42u8] + key@.subrange(key.len() - 4, i as int));
    }
    assert(key@.subrange(key.len() - 4, key.len() as int) =~= key@.skip(key.len() - 4));
    r
}

/// The model column of a pod: its catalog model, or "-".
pub fn modelOrDash(opts: &Options) -> (r: String)
    ensures
        r@ == if opts.Model@.len() == 0 { "-"@ } else { opts.Model@ },
{
    if opts.Model.as_str().is_empty() {
        return owned("-");
    }
    crate::text::copy(&opts.Model)
}

/// Text escaped for a JSON string literal in a GraphQL body.
pub open spec fn gql_esc(s: Seq<char>) -> Seq<char> {
    replace_char(replace_char(s, '\\', "\\\\"@), '"', "\\\""@)
}

pub fn esc(s: &str) -> (r: String)
    ensures
        r@ == gql_esc(s@),
{
    let a = replace_char_exec(s, '\\', "\\\\");
    replace_char_exec(a.as_str(), '"', "\\\"")
}

/// RunPod's GPU type id for a short GPU name; unknown names pass as
/// they are.
pub open spec fn gpu_type_id(short: Seq<char>) -> Seq<char> {
    if short == "H200"@ {
        "NVIDIA H200"@
    } else if short == "H100"@ {
        "NVIDIA H100 80GB HBM3"@
    } else if short == "B200"@ {
        "NVIDIA B200"@
    } else if short == "A100"@ {
        "NVIDIA A100 80GB PCIe"@
    } else if short == "L40S"@ {
        "NVIDIA L40S"@
    } else if short == "L4"@ {
        "NVIDIA L4"@
    } else if short == "RTX 4090"@ {
        "NVIDIA GeForce RTX 4090"@
    } else {
        short
    }
}

/// The short GPU names RunPod has a type id for.
pub open spec fn known_gpu(short: Seq<char>) -> bool {
    short == "H200"@ || short == "H100"@ || short == "B200"@ || short == "A100"@ || short == "L40S"@
        || short == "L4"@ || short == "RTX 4090"@
}

/// A type id names the GPU it was asked for: the short name occurs in
/// the id (an unknown name passes through as itself), and two different
/// known GPUs never share an id.
pub proof fn lemma_gpu_type_id_names_the_gpu(short: Seq<char>, other: Seq<char>)
    ensures
        contains(gpu_type_id(short), short),
        known_gpu(short) && known_gpu(other) && short != other ==> gpu_type_id(short) != gpu_type_id(other),
{
    reveal_strlit("H200");
    reveal_strlit("H100");
    reveal_strlit("B200");
    reveal_strlit("A100");
    reveal_strlit("L40S");
    reveal_strlit("L4");
    reveal_strlit("RTX 4090");
    reveal_strlit("NVIDIA H200");
    reveal_strlit("NVIDIA H100 80GB HBM3");
    reveal_strlit("NVIDIA B200");
    reveal_strlit("NVIDIA A100 80GB PCIe");
    reveal_strlit("NVIDIA L40S");
    reveal_strlit("NVIDIA L4");
    reveal_strlit("NVIDIA GeForce RTX 4090");
    let id = gpu_type_id(short);
    if known_gpu(short) {
        let at: int = if short == "RTX 4090"@ { 15 } else { 7 };
        assert(id.subrange(at, at + short.len()) =~= short);
        crate::text::lemma_contains_at(id, short, at);
    } else {
        assert(id.subrange(0, short.len() as int) =~= short);
        crate::text::lemma_contains_at(id, short, 0);
    }
    if known_gpu(short) && known_gpu(other) && short != other {
        let oid = gpu_type_id(other);
        if id == oid {
            assert(id.len() == oid.len());
            assert(id[8] == oid[8] && id[9] == oid[9] && id[10] == oid[10] && id[7] == oid[7]);
        }
    }
}

/// The driver precedence: the --driver flag, then KVLM_DRIVER, then the
/// config file's driver; the recorded target's driver only when all
/// three are unset.
pub proof fn lemma_driver_precedence(flag: Seq<char>, env: Seq<char>, cfg: Seq<char>, target: Seq<char>)
    ensures
        flag.len() > 0 ==> driver_choice(flag, env, cfg, target) == flag,
        flag.len() == 0 && env.len() > 0 ==> driver_choice(flag, env, cfg, target) == env,
        flag.len() == 0 && env.len() == 0 && cfg.len() > 0 ==> driver_choice(flag, env, cfg, target) == cfg,
        flag.len() == 0 && env.len() == 0 && cfg.len() == 0 ==> driver_choice(flag, env, cfg, target) == target,
{
}

pub fn gpuTypeID(short: &str) -> (r: String)
    ensures
        r@ == gpu_type_id(short@),
{
    if str_eq(short, "H200") {
        owned("NVIDIA H200")
    } else if str_eq(short, "H100") {
        owned("NVIDIA H100 80GB HBM3")
    } else if str_eq(short, "B200") {
        owned("NVIDIA B200")
    } else if str_eq(short, "A100") {
        owned("NVIDIA A100 80GB PCIe")
    } else if str_eq(short, "L40S") {
        owned("NVIDIA L40S")
    } else if str_eq(short, "L4") {
        owned("NVIDIA L4")
    } else if str_eq(short, "RTX 4090") {
        owned("NVIDIA GeForce RTX 4090")
    } else {
        owned(short)
    }
}

/// A word of the container command, single-quoted when it holds a
/// space or a brace.
pub open spec fn docker_word(a: Seq<char>) -> Seq<char> {
    if contains(a, " "@) || contains(a, "{"@) { "'"@ + a + "'"@ } else { a }
}

/// A container-command word reads back as its argument: for a
/// non-empty argument of characters the shell reads literally (blanks
/// and double quotes aside), with any double quote inside a value that
/// also holds a space or a brace (the JSON values of the recipes), the
/// shell reads the word as exactly one word, the argument.
pub proof fn lemma_docker_word_reads_back(a: Seq<char>)
    requires
        a.len() > 0,
        crate::model::serve::sh_safe(a),
        contains(a, "\""@) ==> contains(a, " "@) || contains(a, "{"@),
    ensures
        crate::model::serve::sh_words(docker_word(a)) == Some(seq![a]),
{
    reveal_strlit(" ");
    reveal_strlit("{");
    reveal_strlit("\"");
    reveal_strlit("'");
    let w = docker_word(a);
    let e = Seq::<char>::empty();
    assert(crate::model::serve::sh_words(e) == Some(Seq::<Seq<char>>::empty()));
    if contains(a, " "@) || contains(a, "{"@) {
        assert(w =~= seq!['\''] + a + seq!['\'']);
        let rest = w.drop_first();
        assert(rest =~= a + seq!['\'']);
        assert forall|j: int| 0 <= j < a.len() implies rest[j] != '\'' by {
            assert(rest[j] == a[j]);
            assert(crate::model::serve::sh_plain(a[j]) || a[j] == ' ' || a[j] == '"');
        }
        crate::text::lemma_index_char_at(rest, '\'', a.len() as int);
        assert(rest.take(a.len() as int) =~= a);
        assert(rest.skip(a.len() as int + 1) =~= e);
        assert(crate::model::serve::sh_tok(e) == Some((e, 0int)));
        assert(w[0] == '\'');
        assert(a + e =~= a);
        assert(crate::model::serve::sh_tok(w) == Some((a, a.len() as int + 2)));
        crate::model::serve::lemma_words_tok(a, a.len() as int + 2, w);
        assert(w.skip(a.len() as int + 2) =~= e);
        assert(seq![a] + Seq::<Seq<char>>::empty() =~= seq![a]);
    } else {
        assert forall|i: int| 0 <= i < a.len() implies crate::model::serve::sh_plain(#[trigger] a[i]) by {
            if a[i] == ' ' {
                assert(a.subrange(i, i + 1) =~= " "@);
                crate::text::lemma_contains_at(a, " "@, i);
            }
            if a[i] == '"' {
                assert(a.subrange(i, i + 1) =~= "\""@);
                crate::text::lemma_contains_at(a, "\""@, i);
            }
        }
        assert(a + e =~= a);
        crate::model::serve::lemma_tok_plain(a, e);
        assert(crate::model::serve::sh_plain(a[0]));
        crate::model::serve::lemma_words_tok(a, a.len() as int, a);
        assert(a.skip(a.len() as int) =~= e);
        assert(seq![a] + Seq::<Seq<char>>::empty() =~= seq![a]);
    }
}

/// The words of a serve argv the container command keeps: all but a
/// leading "vllm" and "serve" (the image's entrypoint is that).
pub open spec fn docker_words(argv: Seq<Seq<char>>) -> Seq<Seq<char>>
    decreases argv.len(),
{
    if argv.len() == 0 {
        seq![]
    } else {
        let i = argv.len() - 1;
        let a = argv.last();
        docker_words(argv.drop_last()) + if i < 2 && (a == "vllm"@ || a == "serve"@) {
            seq![]
        } else {
            seq![docker_word(a)]
        }
    }
}

/// The container command for a production pod: the kept words joined
/// by spaces.
pub open spec fn docker_command(argv: Seq<Seq<char>>) -> Seq<char> {
    join(docker_words(argv), " "@)
}

pub fn dockerCommand(serveArgv: &Vec<String>) -> (r: String)
    ensures
        r@ == docker_command(serveArgv.deep_view()),
{
    let ghost av = serveArgv.deep_view();
    let mut words: Vec<String> = Vec::new();
    let mut i: usize = 0;
    assert(av.take(0) =~= Seq::<Seq<char>>::empty());
    while i < serveArgv.len()
        invariant
            i <= serveArgv.len(),
            av == serveArgv.deep_view(),
            words.deep_view() == docker_words(av.take(i as int)),
        decreases serveArgv.len() - i,
    {
        let a = &serveArgv[i];
        proof {
            let t = av.take(i + 1);
            assert(t.drop_last() =~= av.take(i as int));
            assert(t.last() == a@);
        }
        if i < 2 && (str_eq(a.as_str(), "vllm") || str_eq(a.as_str(), "serve")) {
        } else {
            let mut w = String::new();
            if contains_exec(a.as_str(), " ") || contains_exec(a.as_str(), "{") {
                push_str(&mut w, "'");
                push_str(&mut w, a.as_str());
                push_str(&mut w, "'");
            } else {
                push_str(&mut w, a.as_str());
            }
            push_word(&mut words, w);
        }
        i += 1;
        assert(words.deep_view() =~= docker_words(av.take(i as int)));
    }
    assert(av.take(serveArgv.len() as int) =~= av);
    crate::text::join_exec(&words, " ")
}

/// The https endpoint RunPod proxies a pod's port 8000 at.
pub open spec fn proxy_url(pod: Seq<char>) -> Seq<char> {
    "https://"@ + pod + "-8000.proxy.runpod.net"@
}

pub fn proxyURL(podID: &str) -> (r: String)
    ensures
        r@ == proxy_url(podID@),
{
    let mut s = owned("https://");
    push_str(&mut s, podID);
    push_str(&mut s, "-8000.proxy.runpod.net");
    s
}

/// The allowed CUDA versions as JSON string items.
pub open spec fn cuda_list(vs: Seq<Seq<char>>) -> Seq<char> {
    join(vs.map_values(|v: Seq<char>| "\""@ + gql_esc(v) + "\""@), ", "@)
}

/// The deploy request's input object: pod name ("kvlm-<model>", or
/// "kvlm-pod"), GPU type and count, image, container command and ports
/// (production pods serve through the platform's proxy; profile pods
/// keep ssh), volume, CUDA versions and the ssh public key.
pub open spec fn deploy_input(o: Options, pubkey: Seq<char>) -> Seq<char> {
    let production = o.ServeArgv@.len() > 0;
    let name = if o.Model@.len() == 0 { "kvlm-pod"@ } else { "kvlm-"@ + o.Model@ };
    let ports = if production { "8000/http"@ } else { "22/tcp,8000/http"@ };
    let docker = if production { docker_command(o.ServeArgv.deep_view()) } else { seq![] };
    let volume = if o.VolumeID@.len() > 0 {
        "\"networkVolumeId\": \""@ + gql_esc(o.VolumeID@) + "\""@
    } else {
        "\"volumeInGb\": 60"@
    };
    "{\"cloudType\": \"SECURE\", \"gpuCount\": "@ + decimal(o.GPUCount as int) + ", \"gpuTypeId\": \""@
        + gql_esc(gpu_type_id(o.GPUType@)) + "\", \"name\": \""@ + gql_esc(name) + "\", \"imageName\": \""@
        + gql_esc(o.Image@) + "\", \"dockerArgs\": \""@ + gql_esc(docker) + "\", \"ports\": \""@ + ports
        + "\", "@ + volume
        + ", \"containerDiskInGb\": 40, \"volumeMountPath\": \"/workspace\", \"supportPublicIp\": true, \"allowedCudaVersions\": ["@
        + cuda_list(o.CudaVersions.deep_view())
        + "], \"env\": [{\"key\": \"PUBLIC_KEY\", \"value\": \""@ + gql_esc(pubkey)
        + "\"}, {\"key\": \"HF_HOME\", \"value\": \"/workspace/hf\"}]}"@
}

fn cuda_list_exec(vs: &Vec<String>) -> (r: String)
    ensures
        r@ == cuda_list(vs.deep_view()),
{
    let ghost f = |v: Seq<char>| "\""@ + gql_esc(v) + "\""@;
    let mut items: Vec<String> = Vec::new();
    let mut i: usize = 0;
    while i < vs.len()
        invariant
            i <= vs.len(),
            f == (|v: Seq<char>| "\""@ + gql_esc(v) + "\""@),
            items.deep_view() == vs.deep_view().take(i as int).map_values(f),
        decreases vs.len() - i,
    {
        let mut w = owned("\"");
        let e = esc(vs[i].as_str());
        push_str(&mut w, e.as_str());
        push_str(&mut w, "\"");
        push_word(&mut items, w);
        i += 1;
        assert(vs.deep_view().take(i as int).map_values(f) =~= vs.deep_view().take(i - 1).map_values(f).push(
            f(vs.deep_view()[i - 1]),
        ));
    }
    assert(vs.deep_view().take(vs.len() as int) =~= vs.deep_view());
    crate::text::join_exec(&items, ", ")
}

/// The input object of RunPod's deploy mutation for `opts`.
pub fn deployInput(opts: &Options, pubkey: &str) -> (r: String)
    ensures
        r@ == deploy_input(*opts, pubkey@),
{
    let production = opts.ServeArgv.len() > 0;
    let mut name = String::new();
    if opts.Model.as_str().is_empty() {
        push_str(&mut name, "kvlm-pod");
    } else {
        push_str(&mut name, "kvlm-");
        push_str(&mut name, opts.Model.as_str());
    }
    let ports = if production { owned("8000/http") } else { owned("22/tcp,8000/http") };
    let docker = if production { dockerCommand(&opts.ServeArgv) } else { String::new() };
    let mut volume = String::new();
    if !opts.VolumeID.as_str().is_empty() {
        push_str(&mut volume, "\"networkVolumeId\": \"");
        let v = esc(opts.VolumeID.as_str());
        push_str(&mut volume, v.as_str());
        push_str(&mut volume, "\"");
    } else {
        push_str(&mut volume, "\"volumeInGb\": 60");
    }
    let mut s = owned("{\"cloudType\": \"SECURE\", \"gpuCount\": ");
    let count = int_to_string(opts.GPUCount);
    push_str(&mut s, count.as_str());
    push_str(&mut s, ", \"gpuTypeId\": \"");
    let tid = gpuTypeID(opts.GPUType.as_str());
    let tide = esc(tid.as_str());
    push_str(&mut s, tide.as_str());
    push_str(&mut s, "\", \"name\": \"");
    let ne = esc(name.as_str());
    push_str(&mut s, ne.as_str());
    push_str(&mut s, "\", \"imageName\": \"");
    let ie = esc(opts.Image.as_str());
    push_str(&mut s, ie.as_str());
    push_str(&mut s, "\", \"dockerArgs\": \"");
    let de = esc(docker.as_str());
    push_str(&mut s, de.as_str());
    push_str(&mut s, "\", \"ports\": \"");
    push_str(&mut s, ports.as_str());
    push_str(&mut s, "\", ");
    push_str(&mut s, volume.as_str());
    push_str(
        &mut s,
        ", \"containerDiskInGb\": 40, \"volumeMountPath\": \"/workspace\", \"supportPublicIp\": true, \"allowedCudaVersions\": [",
    );
    let cudas = cuda_list_exec(&opts.CudaVersions);
    push_str(&mut s, cudas.as_str());
    push_str(&mut s, "], \"env\": [{\"key\": \"PUBLIC_KEY\", \"value\": \"");
    let pe = esc(pubkey);
    push_str(&mut s, pe.as_str());
    push_str(&mut s, "\"}, {\"key\": \"HF_HOME\", \"value\": \"/workspace/hf\"}]}");
    s
}

/// The driver a command runs with: the --driver flag, else the
/// KVLM_DRIVER environment variable, else the config file's "driver",
/// else the driver of the recorded target; "" when none is set.
pub open spec fn driver_choice(flag: Seq<char>, env: Seq<char>, cfg: Seq<char>, target: Seq<char>) -> Seq<char> {
    if flag.len() > 0 {
        flag
    } else if env.len() > 0 {
        env
    } else if cfg.len() > 0 {
        cfg
    } else {
        target
    }
}

pub fn chooseDriver(flag: &str, env: &str, cfg: &str, target: &str) -> (r: String)
    ensures
        r@ == driver_choice(flag@, env@, cfg@, target@),
{
    if !flag.is_empty() {
        owned(flag)
    } else if !env.is_empty() {
        owned(env)
    } else if !cfg.is_empty() {
        owned(cfg)
    } else {
        owned(target)
    }
}


/// Why no driver can run a command.
#[derive(PartialEq, Eq, Structural, Clone, Copy)]
pub enum DriverError {
    /// Neither the flag, the environment, the config nor the recorded
    /// target names a driver.
    NoneSelected,
    /// The chosen name is not a registered driver.
    Unknown,
}

/// The driver a command runs with, checked against the registered
/// names: none chosen, an unknown one, or the chosen name.
pub fn selectDriver(flag: &str, env: &str, cfg: &str, target: &str, names: &Vec<String>) -> (r: Result<
    String,
    DriverError,
>)
    ensures
        ({
            let name = driver_choice(flag@, env@, cfg@, target@);
            &&& (r matches Err(DriverError::NoneSelected)) <==> name.len() == 0
            &&& (r matches Err(DriverError::Unknown)) <==> name.len() > 0 && !names.deep_view().contains(name)
            &&& r matches Ok(n) ==> n@ == name && names.deep_view().contains(name)
        }),
{
    let name = chooseDriver(flag, env, cfg, target);
    if name.as_str().is_empty() {
        return Err(DriverError::NoneSelected);
    }
    let ghost nv = names.deep_view();
    let mut i: usize = 0;
    while i < names.len()
        invariant
            i <= names.len(),
            nv == names.deep_view(),
            name@ == driver_choice(flag@, env@, cfg@, target@),
            name@.len() > 0,
            forall|j: int| 0 <= j < i ==> nv[j] != name@,
        decreases names.len() - i,
    {
        if str_eq(names[i].as_str(), name.as_str()) {
            assert(nv[i as int] == name@);
            assert(nv.contains(name@));
            return Ok(name);
        }
        i += 1;
    }
    assert(!nv.contains(name@)) by {
        if nv.contains(name@) {
            let j = choose|j: int| 0 <= j < nv.len() && nv[j] == name@;
            assert(nv[j] != name@);
        }
    }
    Err(DriverError::Unknown)
}

/// A driver setting: the environment variable when it is set and
/// non-empty, else the config file's `drivers.<name>.<key>`.
pub open spec fn setting(env: Option<Seq<char>>, cfg: Seq<char>) -> Seq<char> {
    match env {
        Some(v) if v.len() > 0 => v,
        _ => cfg,
    }
}

pub fn resolveString(env: Option<&str>, cfg: &str) -> (r: String)
    ensures
        r@ == setting(
            match env {
                Some(v) => Some(v@),
                None => None,
            },
            cfg@,
        ),
{
    match env {
        Some(v) => if !v.is_empty() {
            owned(v)
        } else {
            owned(cfg)
        },
        None => owned(cfg),
    }
}

/// The API key credentials of RunPod and Vast.ai: the key from the
/// environment or the config file, or `None` when neither holds one.
pub fn apiKeyCredentials(env: Option<&str>, cfg: &str) -> (r: Option<Credentials>)
    ensures
        ({
            let key = setting(
                match env {
                    Some(v) => Some(v@),
                    None => None,
                },
                cfg@,
            );
            &&& r is None <==> key.len() == 0
            &&& r matches Some(c) ==> c.APIKey@ == key && c.Kubeconfig@.len() == 0 && c.Context@.len() == 0
                && c.Namespace@.len() == 0
        }),
{
    let key = resolveString(env, cfg);
    if key.as_str().is_empty() {
        return None;
    }
    Some(Credentials { APIKey: key, Kubeconfig: String::new(), Context: String::new(), Namespace: String::new() })
}

/// `a` sorts before `b`: the first differing character is smaller, or
/// `a` is a proper prefix of `b` (the order of their UTF-8 bytes).
pub open spec fn text_lt(a: Seq<char>, b: Seq<char>) -> bool
    decreases a.len(),
{
    if a.len() == 0 {
        b.len() > 0
    } else if b.len() == 0 {
        false
    } else if a[0] != b[0] {
        (a[0] as int) < (b[0] as int)
    } else {
        text_lt(a.drop_first(), b.drop_first())
    }
}

proof fn lemma_text_lt_irrefl(a: Seq<char>)
    ensures
        !text_lt(a, a),
    decreases a.len(),
{
    if a.len() > 0 {
        lemma_text_lt_irrefl(a.drop_first());
    }
}

proof fn lemma_text_lt_total(a: Seq<char>, b: Seq<char>)
    ensures
        a != b ==> text_lt(a, b) || text_lt(b, a),
        !(text_lt(a, b) && text_lt(b, a)),
        !text_lt(a, a),
    decreases a.len(),
{
    lemma_text_lt_irrefl(a);
    if a.len() > 0 && b.len() > 0 {
        lemma_text_lt_total(a.drop_first(), b.drop_first());
        if a[0] == b[0] && a != b {
            assert(a.drop_first() != b.drop_first()) by {
                if a.drop_first() == b.drop_first() {
                    assert(a.len() == a.drop_first().len() + 1);
                    assert(b.len() == b.drop_first().len() + 1);
                    assert forall|i: int| 0 <= i < a.len() implies a[i] == b[i] by {
                        if i > 0 {
                            assert(a[i] == a.drop_first()[i - 1]);
                            assert(b[i] == b.drop_first()[i - 1]);
                        }
                    }
                    assert(a =~= b);
                }
            }
        }
        if a[0] != b[0] {
            assert((a[0] as int) != (b[0] as int));
        }
    } else if a.len() == 0 && b.len() == 0 {
        assert(a =~= b);
    }
}

proof fn lemma_text_lt_trans(a: Seq<char>, b: Seq<char>, c: Seq<char>)
    requires
        text_lt(a, b),
        text_lt(b, c),
    ensures
        text_lt(a, c),
    decreases a.len(),
{
    if a.len() > 0 && b.len() > 0 && c.len() > 0 && a[0] == b[0] && b[0] == c[0] {
        lemma_text_lt_trans(a.drop_first(), b.drop_first(), c.drop_first());
    }
}

fn text_lt_exec(a: &str, b: &str) -> (r: bool)
    ensures
        r == text_lt(a@, b@),
{
    let va = crate::text::chars_of(a);
    let vb = crate::text::chars_of(b);
    let mut i: usize = 0;
    assert(a@.skip(0) =~= a@);
    assert(b@.skip(0) =~= b@);
    while i < va.len() && i < vb.len() && va[i] == vb[i]
        invariant
            va@ == a@,
            vb@ == b@,
            i <= va.len(),
            i <= vb.len(),
            text_lt(a@, b@) == text_lt(a@.skip(i as int), b@.skip(i as int)),
        decreases va.len() - i,
    {
        proof {
            let x = a@.skip(i as int);
            let y = b@.skip(i as int);
            assert(x.drop_first() =~= a@.skip(i + 1));
            assert(y.drop_first() =~= b@.skip(i + 1));
        }
        i += 1;
    }
    if i == va.len() {
        i < vb.len()
    } else if i == vb.len() {
        false
    } else {
        proof {
            assert(a@.skip(i as int)[0] == va@[i as int]);
            assert(b@.skip(i as int)[0] == vb@[i as int]);
        }
        va[i] < vb[i]
    }
}

pub open spec fn text_sorted(s: Seq<Seq<char>>) -> bool {
    forall|i: int, j: int| 0 <= i < j < s.len() ==> !text_lt(s[j], s[i])
}

/// The registered drivers' names, sorted and joined with ", ".
pub open spec fn driver_names_of(keys: Seq<Seq<char>>, r: Seq<char>) -> bool {
    exists|s: Seq<Seq<char>>|
        #![trigger s.to_multiset()]
        text_sorted(s) && s.to_multiset() == keys.to_multiset() && r == join(s, ", "@)
}

pub fn Names(keys: &Vec<String>) -> (r: String)
    ensures
        driver_names_of(keys.deep_view(), r@),
{
    let ghost kv = keys.deep_view();
    let mut out: Vec<String> = Vec::new();
    let mut i: usize = 0;
    assert(kv.take(0) =~= Seq::<Seq<char>>::empty());
    assert(out.deep_view() =~= kv.take(0));
    while i < keys.len()
        invariant
            i <= keys.len(),
            kv == keys.deep_view(),
            text_sorted(out.deep_view()),
            out.deep_view().to_multiset() == kv.take(i as int).to_multiset(),
        decreases keys.len() - i,
    {
        let x = &keys[i];
        let ghost ov = out.deep_view();
        let mut p: usize = out.len();
        while p > 0 && text_lt_exec(x.as_str(), out[p - 1].as_str())
            invariant
                p <= out.len(),
                ov == out.deep_view(),
                text_sorted(ov),
                forall|k: int| p <= k < ov.len() ==> text_lt(x@, ov[k]),
            decreases p,
        {
            p -= 1;
        }
        proof {
            assert forall|k: int| 0 <= k < p implies !text_lt(x@, ov[k]) by {
                if p > 0 && k < p - 1 {
                    lemma_text_lt_total(x@, ov[p - 1]);
                    if text_lt(x@, ov[k]) {
                        assert(!text_lt(ov[p - 1], ov[k]));
                        lemma_text_lt_total(ov[k], ov[p - 1]);
                        if ov[k] == ov[p - 1] {
                        } else {
                            lemma_text_lt_trans(x@, ov[k], ov[p - 1]);
                        }
                    }
                }
            }
        }
        let ghost xv = x@;
        out.insert(p, crate::text::copy(x));
        let ghost nv = out.deep_view();
        assert(nv =~= ov.insert(p as int, xv));
        proof {
            assert forall|a: int, b: int| 0 <= a < b < nv.len() implies !text_lt(nv[b], nv[a]) by {
                if a < p && b < p {
                    assert(nv[a] == ov[a] && nv[b] == ov[b]);
                } else if a < p && b == p {
                    assert(nv[a] == ov[a]);
                } else if a < p && b > p {
                    assert(nv[a] == ov[a] && nv[b] == ov[b - 1]);
                    lemma_text_lt_total(ov[b - 1], ov[a]);
                } else if a == p && b > p {
                    assert(nv[b] == ov[b - 1]);
                    lemma_text_lt_total(ov[b - 1], xv);
                } else if a > p {
                    assert(nv[a] == ov[a - 1] && nv[b] == ov[b - 1]);
                }
            }
            vstd::seq_lib::to_multiset_insert(ov, p as int, xv);
            let t = kv.take(i + 1);
            assert(t =~= kv.take(i as int).push(xv));
            vstd::seq_lib::to_multiset_build(kv.take(i as int), xv);
        }
        i += 1;
    }
    assert(kv.take(keys.len() as int) =~= kv);
    crate::text::join_exec(&out, ", ")
}

// ---------------------------------------------------------------------
// Bringing a RunPod pod up
// ---------------------------------------------------------------------

/// Where a RunPod `up` stands.
#[derive(PartialEq, Eq, Structural, Clone, Copy)]
pub enum UpPhase {
    Idle,
    Deploying,
    Recording,
    Waiting,
    Finished,
}

/// A RunPod `up` in progress: its phase, whether it serves through the
/// platform (production) or waits for ssh (profile mode), and the polls
/// made so far.
#[derive(PartialEq, Eq, Structural, Clone, Copy)]
pub struct UpState {
    pub phase: UpPhase,
    pub production: bool,
    pub tries: i64,
}

/// What happened since the last step.
#[derive(PartialEq, Eq, Structural, Clone, Copy)]
pub enum UpEvent {
    /// The command starts: whether an ssh public key was found, and
    /// whether a serve command runs in the container.
    Begin { has_pubkey: bool, production: bool },
    /// The deploy mutation answered: whether the answer holds a pod id.
    Deployed { has_pod_id: bool },
    /// The deploy mutation failed.
    DeployFailed,
    /// The pod was written to the target state file.
    Recorded,
    /// One poll (http endpoint, or ssh port) came back: ready or not.
    Polled { ready: bool },
}

/// What the driver does next.
#[derive(PartialEq, Eq, Structural, Clone, Copy)]
pub enum UpAction {
    /// No ssh public key anywhere: fail before deploying.
    FailNoKey,
    /// Return the deploy error.
    FailDeploy,
    /// The answer carried no pod id: fail.
    FailNoPodId,
    /// Send the deploy mutation.
    Deploy,
    /// Record the pod in the target state, before any wait.
    Record,
    /// Sleep `wait_s` seconds, then poll the endpoint (`http`) or the
    /// pod's ports.
    Poll { wait_s: i64, http: bool },
    /// vLLM answers through the platform proxy.
    Serving,
    /// The ssh port is published: record it and return it.
    SshReady,
    /// The polls ran out; the pod is still running and billing.
    GiveUp,
    /// The event does not apply in this phase.
    Ignore,
}

/// The polls before an `up` gives up: 90 of the endpoint (20 s apart),
/// 40 of the ssh port (15 s apart).
pub open spec fn poll_limit(production: bool) -> int {
    if production { 90 } else { 40 }
}

pub open spec fn poll_action(production: bool) -> UpAction {
    UpAction::Poll { wait_s: if production { 20 } else { 15 }, http: production }
}

/// One step of a RunPod `up`: no deploy without a key, the pod recorded
/// the moment it exists, then polls until ready or the limit.
pub open spec fn up_step(s: UpState, e: UpEvent) -> (UpState, UpAction) {
    match (s.phase, e) {
        (UpPhase::Idle, UpEvent::Begin { has_pubkey, production }) => if !has_pubkey {
            (UpState { phase: UpPhase::Finished, ..s }, UpAction::FailNoKey)
        } else {
            (UpState { phase: UpPhase::Deploying, production, tries: 0 }, UpAction::Deploy)
        },
        (UpPhase::Deploying, UpEvent::DeployFailed) => (UpState { phase: UpPhase::Finished, ..s }, UpAction::FailDeploy),
        (UpPhase::Deploying, UpEvent::Deployed { has_pod_id }) => if !has_pod_id {
            (UpState { phase: UpPhase::Finished, ..s }, UpAction::FailNoPodId)
        } else {
            (UpState { phase: UpPhase::Recording, ..s }, UpAction::Record)
        },
        (UpPhase::Recording, UpEvent::Recorded) => (
            UpState { phase: UpPhase::Waiting, tries: 0, ..s },
            poll_action(s.production),
        ),
        (UpPhase::Waiting, UpEvent::Polled { ready }) => if ready {
            (UpState { phase: UpPhase::Finished, ..s }, if s.production { UpAction::Serving } else { UpAction::SshReady })
        } else if s.tries + 1 >= poll_limit(s.production) {
            (UpState { phase: UpPhase::Finished, ..s }, UpAction::GiveUp)
        } else {
            (UpState { tries: (s.tries + 1) as i64, ..s }, poll_action(s.production))
        },
        _ => (s, UpAction::Ignore),
    }
}

pub fn upStep(s: &UpState, e: UpEvent) -> (r: (UpState, UpAction))
    ensures
        r == up_step(*s, e),
{
    let poll = UpAction::Poll { wait_s: if s.production { 20 } else { 15 }, http: s.production };
    match (s.phase, e) {
        (UpPhase::Idle, UpEvent::Begin { has_pubkey, production }) => if !has_pubkey {
            (UpState { phase: UpPhase::Finished, production: s.production, tries: s.tries }, UpAction::FailNoKey)
        } else {
            (UpState { phase: UpPhase::Deploying, production, tries: 0 }, UpAction::Deploy)
        },
        (UpPhase::Deploying, UpEvent::DeployFailed) => (
            UpState { phase: UpPhase::Finished, production: s.production, tries: s.tries },
            UpAction::FailDeploy,
        ),
        (UpPhase::Deploying, UpEvent::Deployed { has_pod_id }) => if !has_pod_id {
            (UpState { phase: UpPhase::Finished, production: s.production, tries: s.tries }, UpAction::FailNoPodId)
        } else {
            (UpState { phase: UpPhase::Recording, production: s.production, tries: s.tries }, UpAction::Record)
        },
        (UpPhase::Recording, UpEvent::Recorded) => (
            UpState { phase: UpPhase::Waiting, production: s.production, tries: 0 },
            poll,
        ),
        (UpPhase::Waiting, UpEvent::Polled { ready }) => {
            let limit: i64 = if s.production { 90 } else { 40 };
            if ready {
                (
                    UpState { phase: UpPhase::Finished, production: s.production, tries: s.tries },
                    if s.production { UpAction::Serving } else { UpAction::SshReady },
                )
            } else if s.tries >= limit - 1 {
                (UpState { phase: UpPhase::Finished, production: s.production, tries: s.tries }, UpAction::GiveUp)
            } else {
                (UpState { phase: UpPhase::Waiting, production: s.production, tries: s.tries + 1 }, poll)
            }
        },
        _ => (*s, UpAction::Ignore),
    }
}

/// The state an `up` starts in.
pub open spec fn up_start() -> UpState {
    UpState { phase: UpPhase::Idle, production: false, tries: 0 }
}

/// The state and the actions after a sequence of events.
pub open spec fn up_run(es: Seq<UpEvent>) -> (UpState, Seq<UpAction>)
    decreases es.len(),
{
    if es.len() == 0 {
        (up_start(), seq![])
    } else {
        let (s, acts) = up_run(es.drop_last());
        let (s2, a) = up_step(s, es.last());
        (s2, acts.push(a))
    }
}

/// The pod is recorded before it is ever waited on: in any run of `up`,
/// every poll comes after a `Record`, so an interrupted `up` never
/// leaves a billing pod unrecorded.
pub proof fn lemma_record_before_poll(es: Seq<UpEvent>)
    ensures
        ({
            let (s, acts) = up_run(es);
            &&& (s.phase == UpPhase::Recording || s.phase == UpPhase::Waiting) ==> exists|j: int|
                0 <= j < acts.len() && #[trigger] acts[j] == UpAction::Record
            &&& forall|k: int|
                0 <= k < acts.len() && (#[trigger] acts[k] is Poll) ==> exists|j: int|
                    0 <= j < k && acts[j] == UpAction::Record
        }),
    decreases es.len(),
{
    if es.len() > 0 {
        lemma_record_before_poll(es.drop_last());
        let (s, acts) = up_run(es.drop_last());
        let (s2, a) = up_step(s, es.last());
        let acts2 = acts.push(a);
        assert(up_run(es) == (s2, acts2));
        if s.phase == UpPhase::Recording || s.phase == UpPhase::Waiting {
            let j = choose|j: int| 0 <= j < acts.len() && #[trigger] acts[j] == UpAction::Record;
            assert(acts2[j] == UpAction::Record);
        }
        if a == UpAction::Record {
            assert(acts2[acts.len() as int] == UpAction::Record);
        }
        assert forall|k: int| 0 <= k < acts2.len() && (#[trigger] acts2[k] is Poll) implies exists|j: int|
            0 <= j < k && acts2[j] == UpAction::Record by {
            if k < acts.len() {
                assert(acts2[k] == acts[k]);
                let j = choose|j: int| 0 <= j < k && acts[j] == UpAction::Record;
                assert(acts2[j] == acts[j]);
            } else {
                let j = choose|j: int| 0 <= j < acts.len() && #[trigger] acts[j] == UpAction::Record;
                assert(acts2[j] == acts[j]);
            }
        }
    }
}

} // verus!
