//! The capability URL: the single authentication artifact handed to
//! legitimate callers out-of-band. It embeds the hex fingerprint as the
//! credential of a loopback endpoint on the service's fixed port.

use vstd::prelude::*;
use vstd::string::{StrSliceExecFns, StringExecFns};

use crate::errors::{is_no_identity_err, no_identity_error, RpcError};
use crate::identity::IdentityStore;

verus! {

/// The fixed well-known port the gateway's loopback listener binds.
pub const RPC_PORT: u16 = 18340;

/// The decimal digit character for one digit value.
pub open spec fn dec_digit(n: int) -> char
    recommends
        0 <= n < 10,
{
    if n == 0 {
        '0'
    } else if n == 1 {
        '1'
    } else if n == 2 {
        '2'
    } else if n == 3 {
        '3'
    } else if n == 4 {
        '4'
    } else if n == 5 {
        '5'
    } else if n == 6 {
        '6'
    } else if n == 7 {
        '7'
    } else if n == 8 {
        '8'
    } else {
        '9'
    }
}

/// The decimal rendering of a number, most significant digit first, no
/// leading zeroes (zero itself renders as one digit).
pub open spec fn dec_str_of(n: nat) -> Seq<char>
    decreases n,
{
    if n < 10 {
        seq![dec_digit(n as int)]
    } else {
        dec_str_of(n / 10) + seq![dec_digit((n % 10) as int)]
    }
}

/// One decimal digit as a string.
fn digit_string(d: u64) -> (s: String)
    requires
        d < 10,
    ensures
        s@ == seq![dec_digit(d as int)],
{
    if d == 0 {
        let s = String::from_str("0");
        proof {
            reveal_strlit("0");
            assert(s@ =~= seq![dec_digit(0)]);
        }
        s
    } else if d == 1 {
        let s = String::from_str("1");
        proof {
            reveal_strlit("1");
            assert(s@ =~= seq![dec_digit(1)]);
        }
        s
    } else if d == 2 {
        let s = String::from_str("2");
        proof {
            reveal_strlit("2");
            assert(s@ =~= seq![dec_digit(2)]);
        }
        s
    } else if d == 3 {
        let s = String::from_str("3");
        proof {
            reveal_strlit("3");
            assert(s@ =~= seq![dec_digit(3)]);
        }
        s
    } else if d == 4 {
        let s = String::from_str("4");
        proof {
            reveal_strlit("4");
            assert(s@ =~= seq![dec_digit(4)]);
        }
        s
    } else if d == 5 {
        let s = String::from_str("5");
        proof {
            reveal_strlit("5");
            assert(s@ =~= seq![dec_digit(5)]);
        }
        s
    } else if d == 6 {
        let s = String::from_str("6");
        proof {
            reveal_strlit("6");
            assert(s@ =~= seq![dec_digit(6)]);
        }
        s
    } else if d == 7 {
        let s = String::from_str("7");
        proof {
            reveal_strlit("7");
            assert(s@ =~= seq![dec_digit(7)]);
        }
        s
    } else if d == 8 {
        let s = String::from_str("8");
        proof {
            reveal_strlit("8");
            assert(s@ =~= seq![dec_digit(8)]);
        }
        s
    } else {
        let s = String::from_str("9");
        proof {
            reveal_strlit("9");
            assert(s@ =~= seq![dec_digit(9)]);
        }
        s
    }
}

/// Renders a number in decimal.
pub fn u64_to_dec(n: u64) -> (s: String)
    ensures
        s@ == dec_str_of(n as nat),
    decreases n,
{
    if n < 10 {
        digit_string(n)
    } else {
        let mut s = u64_to_dec(n / 10);
        let d = digit_string(n % 10);
        s.append(d.as_str());
        proof {
            assert(s@ =~= dec_str_of(n as nat));
        }
        s
    }
}

/// The capability URL for a fingerprint and port: loopback host, the
/// fingerprint embedded as the credential.
pub open spec fn capability_url_of(fp: Seq<char>, port: u16) -> Seq<char> {
    "http://"@ + fp + "@"@ + "127.0.0.1"@ + ":"@ + dec_str_of(port as nat)
}

/// Builds the connection string shown to the user, who pastes it into a
/// trusted client: `http://<hex-fingerprint>@127.0.0.1:<port>`. Pure
/// string construction from the loaded identity; never persisted. Fails
/// exactly when no identity exists yet.
pub fn get_server_url(store: &IdentityStore, port: u16) -> (r: Result<String, RpcError>)
    ensures
        (r is Ok) == store.has_identity(),
        r matches Ok(u) ==> u@ == capability_url_of(store.fingerprint_model(), port),
        r matches Err(e) ==> is_no_identity_err(e),
{
    if !store.identity_loaded() {
        return Err(no_identity_error());
    }
    let fp = store.fingerprint();
    let mut url = String::from_str("http://");
    url.append(fp.as_str());
    url.append("@");
    url.append("127.0.0.1");
    url.append(":");
    let port_str = u64_to_dec(port as u64);
    url.append(port_str.as_str());
    proof {
        assert(url@ =~= capability_url_of(store.fingerprint_model(), port));
    }
    Ok(url)
}

/// What the running binary reports about itself: filled in by the shell
/// from build-time metadata.
#[derive(Debug)]
pub struct BuildInfo {
    pub time: String,
    pub commit: String,
}

} // verus!
