//! Records of the images endpoints.

use vstd::prelude::*;

verus! {

/// An image of the service's own collection.
#[derive(Clone, Debug, PartialEq, Eq)]
pub struct Image {
    pub url: String,
    pub snowflake: String,
    pub nsfw: bool,
    pub tag: String,
}

/// An image taken from WikiHow.
#[derive(Clone, Debug, PartialEq, Eq)]
pub struct WikiHowImage {
    pub url: String,
    pub title: String,
    pub nsfw: bool,
    pub article_url: String,
}

/// A tag with its rating.
#[derive(Clone, Debug, PartialEq, Eq)]
pub struct TagModel {
    pub name: String,
    pub nsfw: bool,
}

/// The tags that images can be asked by.
#[derive(Clone, Debug, PartialEq, Eq)]
pub struct TagList {
    pub models: Option<Vec<TagModel>>,
    pub tags: Vec<String>,
    pub nsfw_tags: Option<Vec<String>>,
}

} // verus!
