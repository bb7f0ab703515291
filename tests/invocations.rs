use remote_session::chain::AuthenticationStrategy;
use remote_session::invocation::invocation_for;

#[test]
fn first_helper_takes_the_secret_as_argument() {
    let inv = invocation_for(AuthenticationStrategy::HelperA, "root@h", "ls", "pw", "/tmp/c").unwrap();
    assert_eq!(inv.program, "plink");
    assert_eq!(inv.args, vec!["-batch", "-ssh", "root@h", "-pw", "pw", "ls"]);
}

#[test]
fn second_helper_reads_a_credential_file() {
    let inv = invocation_for(AuthenticationStrategy::HelperB, "root@h", "ls", "pw", "/tmp/c").unwrap();
    assert_eq!(inv.program, "sshpass");
    assert_eq!(inv.args, vec!["-f", "/tmp/c", "ssh", "root@h", "ls"]);
    assert!(!inv.args.iter().any(|a| a == "pw"));
}

#[test]
fn interactive_client_gets_no_secret() {
    let inv = invocation_for(AuthenticationStrategy::InteractiveProcess, "root@h", "ls", "pw", "").unwrap();
    assert_eq!(inv.program, "ssh");
    assert_eq!(inv.args, vec!["root@h", "ls"]);
}

#[test]
fn native_library_spawns_nothing() {
    assert_eq!(invocation_for(AuthenticationStrategy::NativeLibrary, "root@h", "ls", "pw", ""), None);
}
