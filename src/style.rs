use vstd::prelude::*;
use vstd::string::StringExecFns;

verus! {

/// Fill of the boxes that no rule colours.
pub const DEFAULT_FILL: &'static str = "#e5e5e5";

/// Class of the boxes that take the default fill.
pub const BASE_FILL_CLASS_NAME: &'static str = "baseFill";

/// The minimal stylesheet: the default fill of the boxes.
pub const BASE_STYLE: &'static str = ".baseFill{fill: #e5e5e5;}";

/// The rule that shows the border routers, the sinks and the sources.
pub const BORDER_STYLE: &'static str = "\n.sinkSource{visibility: visible;}";

/// The stylesheet of the document.
pub struct Style {
    pub css: String,
}

impl Style {
    pub open spec fn view(&self) -> Seq<char> {
        self.css@
    }

    /// The stylesheet that also shows the border decorations.
    pub fn base() -> (r: Self)
        ensures
            r@ == BASE_STYLE@ + BORDER_STYLE@,
    {
        Style { css: String::from_str(BASE_STYLE).concat(BORDER_STYLE) }
    }

    /// The text of the stylesheet.
    pub fn css(&self) -> (r: &String)
        ensures
            r@ == self@,
    {
        &self.css
    }
}

impl Default for Style {
    /// The minimal stylesheet.
    fn default() -> (r: Self)
        ensures
            r@ == BASE_STYLE@,
    {
        Style { css: String::from_str(BASE_STYLE) }
    }
}

} // verus!
