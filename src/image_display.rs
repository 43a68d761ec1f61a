use vstd::prelude::*;

use crate::image_queue::ImageInfo;
use crate::organize_run::join;

verus! {

/// What the display pane shows: the selected image and its tag keys.
#[derive(Debug)]
pub struct ImageDisplayState {
    pub root_path: String,
    pub current_image_path: String,
    pub current_image_tags: Option<Vec<char>>,
}

impl ImageDisplayState {
    /// A display of nothing yet, for images under `root_path`.
    pub fn new(root_path: String) -> (r: ImageDisplayState)
        ensures
            r.root_path@ == root_path@,
            r.current_image_path@.len() == 0,
            r.current_image_tags is None,
    {
        ImageDisplayState { root_path, current_image_path: String::new(), current_image_tags: None }
    }

    /// Shows `info`: its path and its tag keys.
    pub fn show(&mut self, info: &ImageInfo)
        ensures
            final(self).root_path@ == old(self).root_path@,
            final(self).current_image_path@ == info.path@,
            final(self).current_image_tags matches Some(t) && t@ == info.tags@,
    {
        self.current_image_path = info.path.clone();
        self.current_image_tags = Some(info.tags.clone());
    }

    /// Where the shown image lies: its path under the root.
    pub fn image_path(&self) -> (r: String)
        ensures
            r@ == join(self.root_path@, self.current_image_path@),
    {
        let r = self.root_path.clone().concat("/").concat(self.current_image_path.as_str());
        proof {
            reveal_strlit("/");
        }
        r
    }
}

} // verus!
