use crate::item::Item;
use vstd::prelude::*;

verus! {

/// A side of the pair on screen: which preview is shown, or which item the
/// user chose.
#[derive(Debug, Clone, Copy, PartialEq, Eq, Structural)]
pub enum IframeCompareMsg {
    Left,
    Right,
}

/// The side-by-side comparison view: on narrow screens it shows the preview
/// of one side at a time, chosen by tab.
pub struct IframeCompare {
    pub flag: IframeCompareMsg,
}

impl IframeCompare {
    /// A view that shows the left preview first.
    pub fn create() -> (r: IframeCompare)
        ensures
            r.flag == IframeCompareMsg::Left,
    {
        IframeCompare { flag: IframeCompareMsg::Left }
    }

    /// Switches to the tab of `msg`; the view always needs redrawing.
    pub fn update(&mut self, msg: IframeCompareMsg) -> (r: bool)
        ensures
            final(self).flag == msg,
            r,
    {
        self.flag = msg;
        true
    }

    /// The item whose preview the single-tab layout shows.
    pub fn shown<'a>(&self, left: &'a Item, right: &'a Item) -> (r: &'a Item)
        ensures
            self.flag == IframeCompareMsg::Left ==> *r == *left,
            self.flag == IframeCompareMsg::Right ==> *r == *right,
    {
        match self.flag {
            IframeCompareMsg::Left => left,
            IframeCompareMsg::Right => right,
        }
    }
}

} // verus!
