use vstd::prelude::*;

verus! {

/// The address of the stream list of one title, for the given account
/// credentials and content type.
pub open spec fn streams_url_spec(uuid: Seq<char>, password: Seq<char>, kind: Seq<char>, id: Seq<char>) -> Seq<char> {
    "https://aiostreams-sonic.lolcathost.ovh/stremio/"@ + uuid + "/"@ + password + "/stream/"@ + kind + "/"@ + id
        + ".json"@
}

/// Builds the address of the stream list of title `id` of content type `kind`.
pub fn streams_url(uuid: &str, password: &str, kind: &str, id: &str) -> (r: String)
    ensures
        r@ == streams_url_spec(uuid@, password@, kind@, id@),
{
    let mut r = String::from_str("https://aiostreams-sonic.lolcathost.ovh/stremio/");
    r.append(uuid);
    r.append("/");
    r.append(password);
    r.append("/stream/");
    r.append(kind);
    r.append("/");
    r.append(id);
    r.append(".json");
    r
}

} // verus!
