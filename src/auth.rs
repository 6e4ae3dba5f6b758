//! The address that starts the Discord login.
use vstd::prelude::*;
use vstd::string::*;

use crate::text::join;

verus! {

pub open spec fn auth_url_spec(client_id: Seq<char>, redirect_uri: Seq<char>) -> Seq<char> {
    "https://discord.com/api/oauth2/authorize?client_id="@ + client_id + "&redirect_uri="@
        + redirect_uri + "&response_type=code&scope=identify"@
}

/// The authorisation URL for the application's client id and redirect URI,
/// asking for the `identify` scope; the values are inserted as given.
pub fn discord_auth_url(client_id: &str, redirect_uri: &str) -> (r: String)
    ensures
        r@ == auth_url_spec(client_id@, redirect_uri@),
{
    let mut out = join("https://discord.com/api/oauth2/authorize?client_id=", client_id);
    out.append("&redirect_uri=");
    out.append(redirect_uri);
    out.append("&response_type=code&scope=identify");
    out
}

} // verus!
