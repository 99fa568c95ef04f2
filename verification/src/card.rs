//! The data a card presents. Turning these fields into markup is
//! presentation and lives outside the library.

use vstd::prelude::*;

use crate::utils::Url;

verus! {

/// One card of a card grid: a title, the destination it links to, optional
/// subtext under the title, and an optional preview image.
#[derive(Clone, PartialEq)]
pub struct Props {
    pub title: String,
    pub url: Url,
    pub subtext: Option<String>,
    pub image_url: Option<String>,
}

} // verus!
