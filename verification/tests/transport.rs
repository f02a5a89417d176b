use kvlm::transport::{execArgs, expandOne, fetchArgs, sshBase, sshInvocation, sshTransport, withoutGPUMetrics};

fn strs(v: &[&str]) -> Vec<String> {
    v.iter().map(|s| s.to_string()).collect()
}

#[test]
fn endpoint_and_args() {
    let t = sshTransport("root@1.2.3.4:2222", "");
    assert_eq!((t.dest.as_str(), t.port.as_str()), ("root@1.2.3.4", "2222"));
    let t2 = sshTransport("root@host", "/k");
    assert_eq!((t2.dest.as_str(), t2.port.as_str(), t2.identity.as_str()), ("root@host", "22", "/k"));
    assert_eq!(
        sshBase("", "-p", "22"),
        strs(&["-o", "BatchMode=yes", "-o", "StrictHostKeyChecking=accept-new", "-p", "22"])
    );
    assert_eq!(
        execArgs(&t, "/id", "true"),
        strs(&["-o", "BatchMode=yes", "-o", "StrictHostKeyChecking=accept-new", "-i", "/id", "-p", "2222", "root@1.2.3.4", "true"])
    );
    assert_eq!(
        fetchArgs(&t, "", "/w/a.txt", "out"),
        strs(&["-o", "BatchMode=yes", "-o", "StrictHostKeyChecking=accept-new", "-P", "2222", "root@1.2.3.4:/w/a.txt", "out"])
    );
}

#[test]
fn retry_line_and_invocation() {
    assert_eq!(
        withoutGPUMetrics("nsys start --gpu-metrics-devices=cuda-visible --x"),
        Some("nsys start --x".to_string())
    );
    assert_eq!(withoutGPUMetrics("nsys start"), None);
    assert_eq!(sshInvocation("root@h:2222"), "ssh -p 2222 root@h");
    assert_eq!(sshInvocation("root@h"), "ssh -p 22 root@h");
    assert_eq!(sshInvocation(":5"), "ssh -p 22 :5");
}

#[test]
fn variable_expansion() {
    let vars = vec![("session".to_string(), "kvlm".to_string()), ("out".to_string(), "/tmp/w".to_string())];
    assert_eq!(expandOne("{out}/x-{session}-{out}", &vars), "/tmp/w/x-kvlm-/tmp/w");
    assert_eq!(expandOne("{other}", &vars), "{other}");
}
