use crate::chain::AuthenticationStrategy;
use vstd::prelude::*;
use vstd::string::*;

verus! {

/// A program to spawn and its arguments.
#[derive(Debug, Clone, PartialEq, Eq)]
pub struct ProcessInvocation {
    pub program: String,
    pub args: Vec<String>,
}

pub open spec fn text_views(v: Seq<String>) -> Seq<Seq<char>> {
    v.map_values(|s: String| s@)
}

/// The process that runs `command` on `connection` under a process-based
/// strategy. The first helper takes the secret as an argument, the second
/// reads it from `credential_file`; the interactive client gets it on its
/// input, so neither appears here.
pub open spec fn invocation_of(
    strategy: AuthenticationStrategy,
    connection: Seq<char>,
    command: Seq<char>,
    secret: Seq<char>,
    credential_file: Seq<char>,
) -> Option<(Seq<char>, Seq<Seq<char>>)> {
    match strategy {
        AuthenticationStrategy::NativeLibrary => None,
        AuthenticationStrategy::HelperA => Some(
            (
                "plink"@,
                seq!["-batch"@, "-ssh"@, connection, "-pw"@, secret, command],
            ),
        ),
        AuthenticationStrategy::HelperB => Some(
            ("sshpass"@, seq!["-f"@, credential_file, "ssh"@, connection, command]),
        ),
        AuthenticationStrategy::InteractiveProcess => Some(("ssh"@, seq![connection, command])),
    }
}

fn owned(s: &str) -> (r: String)
    ensures
        r@ == s@,
{
    s.to_owned()
}

/// The process to spawn for a process-based strategy; none for the native
/// library, which spawns nothing.
pub fn invocation_for(
    strategy: AuthenticationStrategy,
    connection: &str,
    command: &str,
    secret: &str,
    credential_file: &str,
) -> (r: Option<ProcessInvocation>)
    ensures
        match invocation_of(strategy, connection@, command@, secret@, credential_file@) {
            None => r is None,
            Some((p, a)) => r is Some && r->Some_0.program@ == p && text_views(r->Some_0.args@)
                == a,
        },
{
    match strategy {
        AuthenticationStrategy::NativeLibrary => None,
        AuthenticationStrategy::HelperA => {
            let args = vec![
                owned("-batch"),
                owned("-ssh"),
                owned(connection),
                owned("-pw"),
                owned(secret),
                owned(command),
            ];
            let r = ProcessInvocation { program: owned("plink"), args };
            proof {
                assert(text_views(r.args@) =~= seq![
                    "-batch"@,
                    "-ssh"@,
                    connection@,
                    "-pw"@,
                    secret@,
                    command@,
                ]);
            }
            Some(r)
        },
        AuthenticationStrategy::HelperB => {
            let args = vec![
                owned("-f"),
                owned(credential_file),
                owned("ssh"),
                owned(connection),
                owned(command),
            ];
            let r = ProcessInvocation { program: owned("sshpass"), args };
            proof {
                assert(text_views(r.args@) =~= seq![
                    "-f"@,
                    credential_file@,
                    "ssh"@,
                    connection@,
                    command@,
                ]);
            }
            Some(r)
        },
        AuthenticationStrategy::InteractiveProcess => {
            let args = vec![owned(connection), owned(command)];
            let r = ProcessInvocation { program: owned("ssh"), args };
            proof {
                assert(text_views(r.args@) =~= seq![connection@, command@]);
            }
            Some(r)
        },
    }
}

} // verus!
