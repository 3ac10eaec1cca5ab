//! Authentication values.
//!
//! Every connection carries one `Authenticator`: an optional mechanism name
//! and an opaque credential token.  "No authentication" is not the absence
//! of an authenticator but a sentinel token of a single zero byte with no
//! mechanism name, so the handshake can always compare mechanism names the
//! same way.

use vstd::prelude::*;

verus! {

/// The canonical authentication pair of a connection: an optional mechanism
/// name and the credential token sent in AUTH_RESPONSE.
pub struct Authenticator {
    cassandra_name: Option<String>,
    auth_token: Vec<u8>,
}

/// The token of a password authenticator: a zero byte, the user name's
/// UTF-8 bytes, a zero byte, the password's UTF-8 bytes.
pub open spec fn spec_password_token(username: Seq<char>, password: Seq<char>) -> Seq<u8> {
    seq![0u8] + vstd::utf8::encode_utf8(username) + seq![0u8] + vstd::utf8::encode_utf8(password)
}

impl Authenticator {
    /// The mechanism name, or `None` where no authenticator is configured.
    pub closed spec fn spec_name(&self) -> Option<Seq<char>> {
        match self.cassandra_name {
            Some(s) => Some(s@),
            None => None,
        }
    }

    /// The UTF-8 bytes of the mechanism name, as a server writes them in an
    /// AUTHENTICATE body.
    pub closed spec fn spec_name_bytes(&self) -> Option<Seq<u8>> {
        match self.cassandra_name {
            Some(s) => Some(vstd::utf8::encode_utf8(s@)),
            None => None,
        }
    }

    /// The credential token bytes.
    pub closed spec fn spec_token(&self) -> Seq<u8> {
        self.auth_token@
    }

    /// The name bytes are exactly the UTF-8 encoding of the name.
    pub proof fn lemma_name_bytes(&self)
        ensures
            self.spec_name_bytes() is Some <==> self.spec_name() is Some,
            self.spec_name() matches Some(n) ==> self.spec_name_bytes() == Some(
                vstd::utf8::encode_utf8(n),
            ),
    {
    }

    pub fn get_auth_token(&self) -> (r: Vec<u8>)
        ensures
            r@ == self.spec_token(),
    {
        vstd::slice::slice_to_vec(self.auth_token.as_slice())
    }

    pub fn get_cassandra_name(&self) -> (r: Option<String>)
        ensures
            r is Some <==> self.spec_name() is Some,
            r matches Some(s) ==> Some(s@) == self.spec_name(),
    {
        match &self.cassandra_name {
            Some(s) => Some(s.clone()),
            None => None,
        }
    }

}

/// A user name and password, convertible into the canonical pair.
#[derive(Debug, Clone)]
pub struct PasswordAuthenticator {
    username: String,
    password: String,
}

impl PasswordAuthenticator {
    /// The stored user name.
    pub closed spec fn spec_username(&self) -> Seq<char> {
        self.username@
    }

    /// The stored password.
    pub closed spec fn spec_password(&self) -> Seq<char> {
        self.password@
    }

    pub fn new(username: &str, password: &str) -> (r: PasswordAuthenticator)
        ensures
            r.spec_username() == username@,
            r.spec_password() == password@,
    {
        PasswordAuthenticator { username: username.to_string(), password: password.to_string() }
    }
}

impl vstd::std_specs::convert::FromSpecImpl<PasswordAuthenticator> for Authenticator {
    open spec fn obeys_from_spec() -> bool {
        false
    }

    open spec fn from_spec(p: PasswordAuthenticator) -> Authenticator {
        arbitrary()
    }
}

impl From<PasswordAuthenticator> for Authenticator {
    /// The canonical pair of a password authenticator: the Cassandra
    /// password mechanism name, and the token `0 username 0 password`.
    fn from(p: PasswordAuthenticator) -> (r: Authenticator)
        ensures
            r.spec_name() == Some("org.apache.cassandra.auth.PasswordAuthenticator"@),
            r.spec_token() == spec_password_token(p.spec_username(), p.spec_password()),
    {
        let mut token: Vec<u8> = Vec::new();
        token.push(0);
        token.extend_from_slice(p.username.as_str().as_bytes());
        token.push(0);
        token.extend_from_slice(p.password.as_str().as_bytes());
        proof {
            assert(token@ =~= spec_password_token(p.spec_username(), p.spec_password()));
        }
        Authenticator {
            cassandra_name: Some("org.apache.cassandra.auth.PasswordAuthenticator".to_string()),
            auth_token: token,
        }
    }
}

/// The "no authentication" marker, convertible into the canonical pair.
#[derive(Debug, Clone)]
pub struct NoneAuthenticator;

impl vstd::std_specs::convert::FromSpecImpl<NoneAuthenticator> for Authenticator {
    open spec fn obeys_from_spec() -> bool {
        false
    }

    open spec fn from_spec(p: NoneAuthenticator) -> Authenticator {
        arbitrary()
    }
}

impl From<NoneAuthenticator> for Authenticator {
    /// The canonical pair of the no-authentication marker: no mechanism
    /// name, and the sentinel token of one zero byte.
    fn from(_p: NoneAuthenticator) -> (r: Authenticator)
        ensures
            r.spec_name() is None,
            r.spec_token() == seq![0u8],
    {
        let mut token: Vec<u8> = Vec::new();
        token.push(0);
        proof {
            assert(token@ =~= seq![0u8]);
        }
        Authenticator { cassandra_name: None, auth_token: token }
    }
}

} // verus!
