use vstd::prelude::*;

use crate::image_display::ImageDisplayState;
use crate::image_queue::ImageQueueState;
use crate::side_panel::SidePanelState;
use crate::tag_input::TagInputState;

verus! {

/// The state behind one pane of the window.
#[derive(Debug)]
pub enum AppView {
    SidePanel(SidePanelState),
    ImageQueue(ImageQueueState),
    ImageDisplay(ImageDisplayState),
    TagInput(TagInputState),
}

impl AppView {
    /// The tag registry, where this is the side panel.
    pub fn side_panel(&self) -> (r: Option<&SidePanelState>)
        ensures
            match r {
                Some(x) => *self == AppView::SidePanel(*x),
                None => !(self is SidePanel),
            },
    {
        match self {
            AppView::SidePanel(x) => Some(x),
            _ => None,
        }
    }

    /// The tag registry, for changing, where this is the side panel.
    pub fn side_panel_mut(&mut self) -> (r: Option<&mut SidePanelState>)
        ensures
            match r {
                Some(x) => *old(self) == AppView::SidePanel(*x) && *final(self) == AppView::SidePanel(*final(x)),
                None => !(*old(self) is SidePanel) && *final(self) == *old(self),
            },
    {
        match self {
            AppView::SidePanel(x) => Some(x),
            _ => None,
        }
    }

    /// The image queue, where this is the queue pane.
    pub fn image_queue(&self) -> (r: Option<&ImageQueueState>)
        ensures
            match r {
                Some(x) => *self == AppView::ImageQueue(*x),
                None => !(*self is ImageQueue),
            },
    {
        match self {
            AppView::ImageQueue(x) => Some(x),
            _ => None,
        }
    }

    /// The image queue, for changing, where this is the queue pane.
    pub fn image_queue_mut(&mut self) -> (r: Option<&mut ImageQueueState>)
        ensures
            match r {
                Some(x) => *old(self) == AppView::ImageQueue(*x) && *final(self) == AppView::ImageQueue(*final(x)),
                None => !(*old(self) is ImageQueue) && *final(self) == *old(self),
            },
    {
        match self {
            AppView::ImageQueue(x) => Some(x),
            _ => None,
        }
    }

    /// The label field, where this is the tag input pane.
    pub fn tag_input(&self) -> (r: Option<&TagInputState>)
        ensures
            match r {
                Some(x) => *self == AppView::TagInput(*x),
                None => !(*self is TagInput),
            },
    {
        match self {
            AppView::TagInput(x) => Some(x),
            _ => None,
        }
    }

    /// The label field, for changing, where this is the tag input pane.
    pub fn tag_input_mut(&mut self) -> (r: Option<&mut TagInputState>)
        ensures
            match r {
                Some(x) => *old(self) == AppView::TagInput(*x) && *final(self) == AppView::TagInput(*final(x)),
                None => !(*old(self) is TagInput) && *final(self) == *old(self),
            },
    {
        match self {
            AppView::TagInput(x) => Some(x),
            _ => None,
        }
    }

    /// The display state, for changing, where this is the display pane.
    pub fn image_display_mut(&mut self) -> (r: Option<&mut ImageDisplayState>)
        ensures
            match r {
                Some(x) => *old(self) == AppView::ImageDisplay(*x) && *final(self) == AppView::ImageDisplay(*final(x)),
                None => !(*old(self) is ImageDisplay) && *final(self) == *old(self),
            },
    {
        match self {
            AppView::ImageDisplay(x) => Some(x),
            _ => None,
        }
    }
}

} // verus!
