//! A random picture of a corgi.

use crate::api::{document_in, failure, ApiResult, ApiResultValue, ErrorKind};
use crate::commands::util::generate_embed_message;
use crate::json::{extract, keys1, path1, JsonValue};
use crate::reply::{Colour, EmbedValue, Reply, ReplyEmbed, ReplyValue};
use vstd::prelude::*;

verus! {

/// Where a picture is asked for.
pub const CORGI_URL: &'static str = "https://dog.ceo/api/breed/corgi/images/random";

/// The address of the picture that a document of the provider names: the
/// scalar text of its member `message`.
pub open spec fn picture_of(doc: JsonValue) -> Result<Seq<char>, ErrorKind> {
    match doc.extracted(keys1("message"@)) {
        Ok(url) => Ok(url),
        Err(e) => Err(ErrorKind::of_extract(e)),
    }
}

/// The rich message that shows a picture.
pub open spec fn picture_embed(url: Seq<char>) -> EmbedValue {
    EmbedValue { image: Some(url), ..EmbedValue::titled(":dog:"@, Colour::DarkPurple) }
}

/// The reply to a request for a picture.
pub open spec fn corgi_pic_reply(result: ApiResultValue) -> ReplyValue {
    match document_in(result) {
        Err(k) => failure(k),
        Ok(doc) => match picture_of(doc) {
            Err(k) => failure(k),
            Ok(url) => ReplyValue::Embed(picture_embed(url)),
        },
    }
}

/// Answers a request for a picture of a corgi, given what the request to
/// the provider brought: a rich message with the picture, or the text that
/// tells of the failure.
pub fn corgi_pic(result: &ApiResult) -> (r: Reply)
    ensures
        r@ == corgi_pic_reply(result@),
{
    let doc = match result.document() {
        Ok(doc) => doc,
        Err(k) => {
            return k.reply();
        },
    };
    match extract(doc, &path1("message")) {
        Ok(image) => generate_embed_message(
            ReplyEmbed::new(":dog:".to_owned(), Colour::DarkPurple).image(image),
        ),
        Err(e) => ErrorKind::from_extract(e).reply(),
    }
}

} // verus!
