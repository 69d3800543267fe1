//! Choosing the image to show from the list a picture service offers.

use vstd::prelude::*;
use rand::Rng;

verus! {

/// An image on offer, by the path under which it can be opened.
#[derive(Debug)]
pub struct Image {
    pub file_path: String,
}

/// A number below `bound`, drawn by `rand::Rng::random_range` from the
/// generator of the calling thread.
///
/// Claimed of that function: a value drawn from the range `0..bound` lies in
/// it.  Which value comes out is not stated; two calls may differ.  The
/// function panics on an empty range, which `bound > 0` keeps out.
#[verifier::external_body]
fn random_below(bound: usize) -> (index: usize)
    requires
        bound > 0,
    ensures
        index < bound,
{
    rand::rng().random_range(0..bound)
}

/// The path of the image at `index`, if the list is that long.
pub fn path_at(images: &Vec<Image>, index: usize) -> (path: Option<String>)
    ensures
        index < images.len() ==> path is Some && path->Some_0@ == images[index as int].file_path@,
        index >= images.len() ==> path is None,
{
    if index < images.len() {
        Some(images[index].file_path.clone())
    } else {
        None
    }
}

/// The path of one of the images, chosen at random; `None` when there is no
/// image to choose from.
pub fn pick_image(images: &Vec<Image>) -> (path: Option<String>)
    ensures
        path is None <==> images.len() == 0,
        path is Some ==> exists|i: int|
            0 <= i < images.len() && path->Some_0@ == #[trigger] images[i].file_path@,
{
    if images.len() == 0 {
        None
    } else {
        let random_image_index = random_below(images.len());
        path_at(images, random_image_index)
    }
}

} // verus!
