use crate::error::SessionError;
use vstd::prelude::*;
use vstd::string::*;

verus! {

/// The standard port of the SSH protocol.
pub const DEFAULT_PORT: u16 = 22;

/// Where to connect and as whom: the parsed form of `user@host`.
#[derive(Debug, Clone, PartialEq, Eq)]
pub struct ConnectionTarget {
    pub user: String,
    pub host: String,
    pub port: u16,
}

/// `user` and `host` are the two non-empty sides of the single `@` of `s`.
pub open spec fn splits_target(s: Seq<char>, user: Seq<char>, host: Seq<char>) -> bool {
    &&& user.len() > 0
    &&& host.len() > 0
    &&& !user.contains('@')
    &&& !host.contains('@')
    &&& s == user + seq!['@'] + host
}

/// `s` holds exactly one `@`, with text on both sides of it.
pub open spec fn is_target_text(s: Seq<char>) -> bool {
    exists|user: Seq<char>, host: Seq<char>| splits_target(s, user, host)
}

impl ConnectionTarget {
    pub open spec fn wf(&self) -> bool {
        self.user@.len() > 0 && self.host@.len() > 0 && !self.user@.contains('@')
            && !self.host@.contains('@')
    }

    /// The same target on another port.
    pub fn with_port(self, port: u16) -> (r: ConnectionTarget)
        ensures
            r.user@ == self.user@,
            r.host@ == self.host@,
            r.port == port,
    {
        ConnectionTarget { user: self.user, host: self.host, port }
    }
}

proof fn lemma_split_positions(s: Seq<char>, user: Seq<char>, host: Seq<char>)
    requires
        splits_target(s, user, host),
    ensures
        s[user.len() as int] == '@',
        forall|j: int| 0 <= j < s.len() && j != user.len() ==> s[j] != '@',
{
    assert forall|j: int| 0 <= j < s.len() && j != user.len() implies s[j] != '@' by {
        if j < user.len() {
            assert(s[j] == user[j]);
        } else {
            assert(s[j] == host[j - user.len() - 1]);
        }
    }
}

/// Parses `user@host`. Succeeds exactly when `s` holds one `@` with non-empty
/// text on both sides; the port is the protocol's default.
pub fn parse_target(s: &str) -> (r: Result<ConnectionTarget, SessionError>)
    ensures
        r is Ok <==> is_target_text(s@),
        r is Ok ==> splits_target(s@, r->Ok_0.user@, r->Ok_0.host@) && r->Ok_0.port
            == DEFAULT_PORT,
        r is Err ==> r->Err_0 == SessionError::MalformedTarget,
{
    let n = s.unicode_len();
    let mut count: usize = 0;
    let mut first: usize = 0;
    let mut second: usize = 0;
    let mut i: usize = 0;
    while i < n
        invariant
            n == s@.len(),
            i <= n,
            count <= 2,
            count == 0 ==> forall|j: int| 0 <= j < i ==> s@[j] != '@',
            count >= 1 ==> first < i && s@[first as int] == '@',
            count >= 1 ==> forall|j: int| 0 <= j < first ==> s@[j] != '@',
            count == 1 ==> forall|j: int| 0 <= j < i && j != first ==> s@[j] != '@',
            count == 2 ==> first < second < i && s@[second as int] == '@',
        decreases n - i,
    {
        if s.get_char(i) == '@' {
            if count == 0 {
                first = i;
                count = 1;
            } else if count == 1 {
                second = i;
                count = 2;
            }
        }
        i = i + 1;
    }
    if count == 1 && first > 0 && first + 1 < n {
        let user = s.substring_char(0, first).to_owned();
        let host = s.substring_char(first + 1, n).to_owned();
        proof {
            assert(s@ =~= user@ + seq!['@'] + host@);
            assert(!user@.contains('@')) by {
                assert forall|j: int| 0 <= j < user@.len() implies user@[j] != '@' by {
                    assert(user@[j] == s@[j]);
                }
            }
            assert(!host@.contains('@')) by {
                assert forall|j: int| 0 <= j < host@.len() implies host@[j] != '@' by {
                    assert(host@[j] == s@[first + 1 + j]);
                }
            }
            assert(splits_target(s@, user@, host@));
        }
        Ok(ConnectionTarget { user, host, port: DEFAULT_PORT })
    } else {
        proof {
            if is_target_text(s@) {
                let (u, h) = choose|u: Seq<char>, h: Seq<char>| splits_target(s@, u, h);
                lemma_split_positions(s@, u, h);
                if count == 2 {
                    assert(s@[first as int] == '@' && s@[second as int] == '@');
                } else if count == 0 {
                    assert(s@[u.len() as int] == '@');
                } else {
                    assert(first == u.len());
                }
            }
        }
        Err(SessionError::MalformedTarget)
    }
}

} // verus!
