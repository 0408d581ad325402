//! Outbound payload construction: the forwarded message carries the original
//! author's display name and verbatim content, and an avatar URL derived
//! from the author's avatar asset when one is present — when it is absent
//! the override is omitted and the platform falls back to the proxy
//! identity's own default avatar.

use vstd::prelude::*;
use vstd::string::StringExecFns;
use crate::model::{Author, ProxyIdentity};

verus! {

/// The decimal digit character for `d`, which must be below ten.
pub open spec fn dec_digit(d: nat) -> char {
    if d == 0 {
        '0'
    } else if d == 1 {
        '1'
    } else if d == 2 {
        '2'
    } else if d == 3 {
        '3'
    } else if d == 4 {
        '4'
    } else if d == 5 {
        '5'
    } else if d == 6 {
        '6'
    } else if d == 7 {
        '7'
    } else if d == 8 {
        '8'
    } else {
        '9'
    }
}

/// The decimal representation of `n`: most significant digit first, no
/// leading zeros, a single digit for values below ten.
pub open spec fn dec_rep(n: nat) -> Seq<char>
    decreases n,
{
    if n < 10 {
        seq![dec_digit(n)]
    } else {
        dec_rep(n / 10).push(dec_digit(n % 10))
    }
}

/// One decimal digit as a string slice.
fn digit_str(d: u64) -> (s: &'static str)
    requires
        d < 10,
    ensures
        s@ == seq![dec_digit(d as nat)],
{
    proof {
        reveal_strlit("0");
        reveal_strlit("1");
        reveal_strlit("2");
        reveal_strlit("3");
        reveal_strlit("4");
        reveal_strlit("5");
        reveal_strlit("6");
        reveal_strlit("7");
        reveal_strlit("8");
        reveal_strlit("9");
    }
    if d == 0 {
        "0"
    } else if d == 1 {
        "1"
    } else if d == 2 {
        "2"
    } else if d == 3 {
        "3"
    } else if d == 4 {
        "4"
    } else if d == 5 {
        "5"
    } else if d == 6 {
        "6"
    } else if d == 7 {
        "7"
    } else if d == 8 {
        "8"
    } else {
        "9"
    }
}

/// Renders `n` in decimal.
pub fn u64_decimal(n: u64) -> (s: String)
    ensures
        s@ == dec_rep(n as nat),
    decreases n,
{
    if n < 10 {
        digit_str(n).to_owned()
    } else {
        let mut s = u64_decimal(n / 10);
        let last = digit_str(n % 10);
        s.append(last);
        proof {
            assert(dec_rep((n / 10) as nat) + last@ =~= dec_rep(n as nat));
        }
        s
    }
}

/// The avatar URL derived from an author id and an avatar asset id.
pub open spec fn avatar_url_spec(user_id: u64, asset: Seq<char>) -> Seq<char> {
    "https://cdn.discordapp.com/avatars/"@ + dec_rep(user_id as nat) + "/"@ + asset + ".png"@
}

/// Renders the avatar URL for one author.
pub fn avatar_url(user_id: u64, asset: &String) -> (u: String)
    ensures
        u@ == avatar_url_spec(user_id, asset@),
{
    let mut u = "https://cdn.discordapp.com/avatars/".to_owned();
    let num = u64_decimal(user_id);
    u.append(num.as_str());
    u.append("/");
    u.append(asset.as_str());
    u.append(".png");
    proof {
        assert(u@ =~= avatar_url_spec(user_id, asset@));
    }
    u
}

/// The outbound payload sent through a proxy identity.
#[derive(Debug)]
pub struct Payload {
    /// Display name shown on the forwarded message.
    pub username: String,
    /// Verbatim message text.
    pub content: String,
    /// Avatar override, omitted when the author has no avatar asset.
    pub avatar_url: Option<String>,
}

/// Payload fidelity: the display name and content equal the author's display
/// name and the original text exactly, and the avatar override is present
/// exactly when the author has an avatar asset, as its derived URL.
pub open spec fn payload_faithful(p: Payload, author: Author, content: Seq<char>) -> bool {
    &&& p.username@ == author.name@
    &&& p.content@ == content
    &&& match author.avatar {
        Some(asset) => p.avatar_url matches Some(u) && u@ == avatar_url_spec(author.id, asset@),
        None => p.avatar_url is None,
    }
}

/// Builds the outbound payload for one message, faithful to its author and
/// content.
pub fn build_payload(author: &Author, content: &String) -> (p: Payload)
    ensures
        payload_faithful(p, *author, content@),
{
    let avatar_override = match &author.avatar {
        Some(asset) => Some(avatar_url(author.id, asset)),
        None => None,
    };
    Payload { username: author.name.clone(), content: content.clone(), avatar_url: avatar_override }
}

/// Why a send request could not be built.
#[derive(Clone, Copy, Debug, PartialEq, Eq)]
pub enum ForwardError {
    /// The resolved proxy identity carries no secret token, so nothing can
    /// be sent through it.
    MissingToken,
}

/// One fully determined outbound send: which identity, its token, and the
/// payload fields, ready for the platform call.
#[derive(Debug)]
pub struct SendRequest {
    /// The proxy identity to send through.
    pub identity_id: u64,
    /// Its secret token.
    pub token: String,
    /// Display name shown on the forwarded message.
    pub username: String,
    /// Verbatim message text.
    pub content: String,
    /// Avatar override, if any.
    pub avatar_url: Option<String>,
}

/// Binds a payload to a resolved proxy identity. Succeeds exactly when the
/// identity carries a secret token; the payload fields pass through
/// unchanged.
pub fn build_send(payload: &Payload, identity: &ProxyIdentity) -> (r: Result<
    SendRequest,
    ForwardError,
>)
    ensures
        match identity.token {
            Some(tok) => r matches Ok(req)
                && req.identity_id == identity.id
                && req.token == tok
                && req.username == payload.username
                && req.content == payload.content
                && req.avatar_url == payload.avatar_url,
            None => r == Result::<SendRequest, ForwardError>::Err(ForwardError::MissingToken),
        },
{
    match &identity.token {
        Some(tok) => Ok(
            SendRequest {
                identity_id: identity.id,
                token: tok.clone(),
                username: payload.username.clone(),
                content: payload.content.clone(),
                avatar_url: match &payload.avatar_url {
                    Some(u) => Some(u.clone()),
                    None => None,
                },
            },
        ),
        None => Err(ForwardError::MissingToken),
    }
}

} // verus!
