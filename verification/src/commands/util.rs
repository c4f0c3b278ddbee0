//! The replies that every handler ends with.

use crate::reply::{Reply, ReplyEmbed, ReplyValue};
use vstd::prelude::*;

verus! {

/// The text that answers `ping`.
pub open spec fn ping_text() -> Seq<char> {
    "Hey, I'm alive!"@
}

/// The reply to `ping`.
pub fn ping() -> (r: Reply)
    ensures
        r@ == ReplyValue::Text(ping_text()),
{
    let content = "Hey, I'm alive!".to_owned();
    generate_message(content)
}

/// The reply that shows a text.
pub fn generate_message(content: String) -> (r: Reply)
    ensures
        r@ == ReplyValue::Text(content@),
{
    Reply::Text(content)
}

/// The reply that shows a rich message.
pub fn generate_embed_message(embed: ReplyEmbed) -> (r: Reply)
    ensures
        r@ == ReplyValue::Embed(embed@),
{
    Reply::Embed(embed)
}

} // verus!
