use vstd::prelude::*;

use crate::errors::ClientError;
use crate::signing::{b64_decode_of, sign, signature_of};

verus! {

/// The credential for one exchange account: identity, API key id,
/// passphrase, base64-encoded signing secret, and the requested token
/// lifetime. Immutable once loaded; the secret is never written out.
#[derive(Clone, Debug, PartialEq)]
pub struct Account {
    pub id: String,
    pub key: String,
    pub passphrase: String,
    pub secret: String,
    pub token_lifetime: String,
}

/// The path of the token-issuance endpoint for an account and key.
pub open spec fn token_path_spec(id: Seq<char>, key: Seq<char>) -> Seq<char> {
    "/accounts/"@ + id + "/api_keys/"@ + key + "/tokens"@
}

/// The body of a token request: a JSON object whose single field
/// carries the requested lifetime verbatim, as a string.
pub open spec fn token_body_spec(lifetime: Seq<char>) -> Seq<char> {
    "{\"expiresIn\":\""@ + lifetime + "\"}"@
}

/// The authorization header of a token request:
/// `NBX-HMAC-SHA256 <passphrase>:<signature>`.
pub open spec fn auth_header_spec(passphrase: Seq<char>, sig: Seq<char>) -> Seq<char> {
    "NBX-HMAC-SHA256 "@ + passphrase + ":"@ + sig
}

/// The path that reads one asset's balance.
pub open spec fn asset_path_spec(id: Seq<char>, asset: Seq<char>) -> Seq<char> {
    "/accounts/"@ + id + "/assets/"@ + asset
}

/// The path that lists or creates orders.
pub open spec fn orders_path_spec(id: Seq<char>) -> Seq<char> {
    "/accounts/"@ + id + "/orders"@
}

/// The path that reads one order.
pub open spec fn order_path_spec(id: Seq<char>, order_id: Seq<char>) -> Seq<char> {
    orders_path_spec(id) + "/"@ + order_id
}

/// The value of a bearer authorization header.
pub open spec fn bearer_spec(token: Seq<char>) -> Seq<char> {
    "Bearer "@ + token
}

/// Everything a transport needs to send one signed token request:
/// where to POST, what body to send, and the two authentication
/// headers (the signed authorization line and the raw timestamp).
pub struct TokenRequest {
    pub path: String,
    pub body: String,
    pub timestamp: u64,
    pub auth_header: String,
}

/// The value of a bearer authorization header for a token.
pub fn bearer_header(token: &str) -> (r: String)
    ensures
        r@ == bearer_spec(token@),
{
    let mut s = "Bearer ".to_owned();
    s.append(token);
    s
}

impl Account {
    /// Take ownership of a loaded credential, field for field.
    pub fn new(config: Account) -> (r: Self)
        ensures
            r.id@ == config.id@,
            r.key@ == config.key@,
            r.passphrase@ == config.passphrase@,
            r.secret@ == config.secret@,
            r.token_lifetime@ == config.token_lifetime@,
    {
        Self {
            id: config.id,
            key: config.key,
            passphrase: config.passphrase,
            secret: config.secret,
            token_lifetime: config.token_lifetime,
        }
    }

    /// Build the signed token request for a timestamp taken at the
    /// moment of signing: path, lifetime body, and the authorization
    /// header over the canonical message. Fails with a decode error
    /// exactly when the secret is not well-formed base64.
    pub fn token_request(&self, timestamp: u64) -> (r: Result<TokenRequest, ClientError>)
        ensures
            match r {
                Ok(t) => {
                    &&& b64_decode_of(self.secret@) is Some
                    &&& t.path@ == token_path_spec(self.id@, self.key@)
                    &&& t.body@ == token_body_spec(self.token_lifetime@)
                    &&& t.timestamp == timestamp
                    &&& t.auth_header@ == auth_header_spec(
                        self.passphrase@,
                        signature_of(
                            self.secret@,
                            timestamp,
                            "POST"@,
                            token_path_spec(self.id@, self.key@),
                            token_body_spec(self.token_lifetime@),
                        ).unwrap(),
                    )
                },
                Err(e) => e == ClientError::Decode && b64_decode_of(self.secret@) is None,
            },
    {
        let mut path = "/accounts/".to_owned();
        path.append(self.id.as_str());
        path.append("/api_keys/");
        path.append(self.key.as_str());
        path.append("/tokens");
        proof {
            assert(path@ =~= token_path_spec(self.id@, self.key@));
        }
        let mut body = "{\"expiresIn\":\"".to_owned();
        body.append(self.token_lifetime.as_str());
        body.append("\"}");
        proof {
            assert(body@ =~= token_body_spec(self.token_lifetime@));
        }
        let sig = match sign(self.secret.as_str(), timestamp, "POST", path.as_str(), body.as_str())
            {
            Ok(sig) => sig,
            Err(e) => {
                return Err(e);
            },
        };
        let mut auth = "NBX-HMAC-SHA256 ".to_owned();
        auth.append(self.passphrase.as_str());
        auth.append(":");
        auth.append(sig.as_str());
        proof {
            assert(auth@ =~= auth_header_spec(
                self.passphrase@,
                signature_of(
                    self.secret@,
                    timestamp,
                    "POST"@,
                    token_path_spec(self.id@, self.key@),
                    token_body_spec(self.token_lifetime@),
                ).unwrap(),
            ));
        }
        Ok(TokenRequest { path, body, timestamp, auth_header: auth })
    }

    /// The path that reads one asset's balance for this account.
    pub fn asset_path(&self, asset: &str) -> (r: String)
        ensures
            r@ == asset_path_spec(self.id@, asset@),
    {
        let mut p = "/accounts/".to_owned();
        p.append(self.id.as_str());
        p.append("/assets/");
        p.append(asset);
        proof {
            assert(p@ =~= asset_path_spec(self.id@, asset@));
        }
        p
    }

    /// The path that lists or creates this account's orders.
    pub fn orders_path(&self) -> (r: String)
        ensures
            r@ == orders_path_spec(self.id@),
    {
        let mut p = "/accounts/".to_owned();
        p.append(self.id.as_str());
        p.append("/orders");
        proof {
            assert(p@ =~= orders_path_spec(self.id@));
        }
        p
    }

    /// The path that reads one of this account's orders.
    pub fn order_path(&self, order_id: &str) -> (r: String)
        ensures
            r@ == order_path_spec(self.id@, order_id@),
    {
        let mut p = self.orders_path();
        p.append("/");
        p.append(order_id);
        proof {
            assert(p@ =~= order_path_spec(self.id@, order_id@));
        }
        p
    }
}

} // verus!
