//! The images endpoints.

use crate::prelude::SpanType;
use crate::request::{
    bare_request, flag_param, text_param, Method, Param, PreparedRequest, RequestView,
};
use crate::text::join;
use crate::violation::Violation;
use vstd::prelude::*;

verus! {

/// Request for a random image with the tag `tag`.
pub open spec fn random_image_request(tag: Seq<char>, nsfw: bool) -> RequestView {
    bare_request(Method::Get, "/images/random-image"@).query(text_param("tag"@, tag)).query(
        flag_param("nsfw"@, nsfw),
    )
}

/// Request for a random post of `subreddit` from the time span `span`.
pub open spec fn random_reddit_request(
    subreddit: Seq<char>,
    remove_nsfw: bool,
    span: SpanType,
) -> RequestView {
    bare_request(Method::Get, "/images/rand-reddit/"@ + subreddit).query(
        flag_param("remove_nsfw"@, remove_nsfw),
    ).query(text_param("span"@, span.name()))
}

/// Request for a random WikiHow image.
pub open spec fn random_wikihow_request(nsfw: bool) -> RequestView {
    bare_request(Method::Get, "/images/random-wikihow"@).query(flag_param("nsfw"@, nsfw))
}

/// Request for a random NSFW image.
pub open spec fn random_nsfw_request(gifs: bool) -> RequestView {
    bare_request(Method::Get, "/images/random-nsfw"@).query(flag_param("gifs"@, gifs))
}

/// The images endpoints.
#[derive(Clone, Copy, Debug)]
pub struct Images {}

impl Images {
    /// The group of the images endpoints.
    pub fn new() -> (images: Images) {
        Images {  }
    }

    /// Gets a random image with a given tag.
    pub fn random_image(&self, tag: &str, nsfw: bool) -> (r: PreparedRequest)
        requires
            tag@.len() > 0,
        ensures
            r@ == random_image_request(tag@, nsfw),
    {
        PreparedRequest::get("/images/random-image").query(Param::text("tag", tag)).query(
            Param::flag("nsfw", nsfw),
        )
    }

    /// Gets a random image with a given tag, unless the tag is empty.
    pub fn try_random_image(&self, tag: &str, nsfw: bool) -> (r: Result<
        PreparedRequest,
        Violation,
    >)
        ensures
            tag@.len() == 0 ==> r == Err::<PreparedRequest, _>(Violation::EmptyImageTag),
            tag@.len() > 0 ==> r is Ok && r.unwrap()@ == random_image_request(tag@, nsfw),
    {
        if tag.is_empty() {
            Err(Violation::EmptyImageTag)
        } else {
            Ok(self.random_image(tag, nsfw))
        }
    }

    /// Gets a random meme from reddit.
    pub fn random_meme(&self) -> (r: PreparedRequest)
        ensures
            r@ == bare_request(Method::Get, "/images/random-meme"@),
    {
        PreparedRequest::get("/images/random-meme")
    }

    /// Gets a random cute image.
    pub fn random_aww(&self) -> (r: PreparedRequest)
        ensures
            r@ == bare_request(Method::Get, "/images/random-aww"@),
    {
        PreparedRequest::get("/images/random-aww")
    }

    /// Gets a random post from a given subreddit.
    pub fn random_reddit(&self, subreddit: &str, remove_nsfw: bool, span: SpanType) -> (r:
        PreparedRequest)
        requires
            subreddit@.len() > 0,
        ensures
            r@ == random_reddit_request(subreddit@, remove_nsfw, span),
    {
        let path = join("/images/rand-reddit/", subreddit);
        let span_name = span.to_string();
        PreparedRequest::get(path.as_str()).query(Param::flag("remove_nsfw", remove_nsfw)).query(
            Param::text("span", span_name.as_str()),
        )
    }

    /// Gets a random post from a given subreddit, unless its name is empty.
    pub fn try_random_reddit(&self, subreddit: &str, remove_nsfw: bool, span: SpanType) -> (r:
        Result<PreparedRequest, Violation>)
        ensures
            subreddit@.len() == 0 ==> r == Err::<PreparedRequest, _>(Violation::EmptySubreddit),
            subreddit@.len() > 0 ==> r is Ok && r.unwrap()@ == random_reddit_request(
                subreddit@,
                remove_nsfw,
                span,
            ),
    {
        if subreddit.is_empty() {
            Err(Violation::EmptySubreddit)
        } else {
            Ok(self.random_reddit(subreddit, remove_nsfw, span))
        }
    }

    /// Gets a random WikiHow image.
    pub fn random_wikihow(&self, nsfw: bool) -> (r: PreparedRequest)
        ensures
            r@ == random_wikihow_request(nsfw),
    {
        PreparedRequest::get("/images/random-wikihow").query(Param::flag("nsfw", nsfw))
    }

    /// Gets the list of all tags.
    pub fn get_tags(&self) -> (r: PreparedRequest)
        ensures
            r@ == bare_request(Method::Get, "/images/tags"@),
    {
        PreparedRequest::get("/images/tags")
    }

    /// Gets an image by its snowflake.
    pub fn get_image(&self, sf: &str) -> (r: PreparedRequest)
        requires
            sf@.len() > 0,
        ensures
            r@ == bare_request(Method::Get, "/images/image/"@ + sf@),
    {
        let path = join("/images/image/", sf);
        PreparedRequest::get(path.as_str())
    }

    /// Gets an image by its snowflake, unless the snowflake is empty.
    pub fn try_get_image(&self, sf: &str) -> (r: Result<PreparedRequest, Violation>)
        ensures
            sf@.len() == 0 ==> r == Err::<PreparedRequest, _>(Violation::EmptySnowflake),
            sf@.len() > 0 ==> r is Ok && r.unwrap()@ == bare_request(
                Method::Get,
                "/images/image/"@ + sf@,
            ),
    {
        if sf.is_empty() {
            Err(Violation::EmptySnowflake)
        } else {
            Ok(self.get_image(sf))
        }
    }

    /// Looks a tag up by its name.
    pub fn get_tag(&self, tag: &str) -> (r: PreparedRequest)
        requires
            tag@.len() > 0,
        ensures
            r@ == bare_request(Method::Get, "/images/tags/"@ + tag@),
    {
        let path = join("/images/tags/", tag);
        PreparedRequest::get(path.as_str())
    }

    /// Looks a tag up by its name, unless the name is empty.
    pub fn try_get_tag(&self, tag: &str) -> (r: Result<PreparedRequest, Violation>)
        ensures
            tag@.len() == 0 ==> r == Err::<PreparedRequest, _>(Violation::EmptyTag),
            tag@.len() > 0 ==> r is Ok && r.unwrap()@ == bare_request(
                Method::Get,
                "/images/tags/"@ + tag@,
            ),
    {
        if tag.is_empty() {
            Err(Violation::EmptyTag)
        } else {
            Ok(self.get_tag(tag))
        }
    }

    /// Gets a random NSFW image.
    pub fn random_nsfw(&self, gifs: bool) -> (r: PreparedRequest)
        ensures
            r@ == random_nsfw_request(gifs),
    {
        PreparedRequest::get("/images/random-nsfw").query(Param::flag("gifs", gifs))
    }
}

} // verus!
