use vstd::prelude::*;

verus! {

/// The store keys that belong to one canvas.
pub struct Keys {
    /// Where the canvas image blob is stored.
    pub image: String,
    /// The notification channel of the canvas.
    pub pubsub: String,
}

/// `server:{id}:image`
pub open spec fn image_key_of(server_id: Seq<char>) -> Seq<char> {
    "server:"@ + server_id + ":image"@
}

/// `server:{id}:pubsub`
pub open spec fn pubsub_key_of(server_id: Seq<char>) -> Seq<char> {
    "server:"@ + server_id + ":pubsub"@
}

/// Resolves a canvas identifier to its image key and its channel key.
pub fn get_server_keys(server_id: String) -> (r: Keys)
    ensures
        r.image@ == image_key_of(server_id@),
        r.pubsub@ == pubsub_key_of(server_id@),
{
    let image = String::from_str("server:").concat(server_id.as_str()).concat(":image");
    let pubsub = String::from_str("server:").concat(server_id.as_str()).concat(":pubsub");
    Keys { image, pubsub }
}

} // verus!
