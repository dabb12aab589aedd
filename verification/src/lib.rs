//! A block-formatting-context layout engine for a simplified subset of the
//! CSS2 visual formatting model.
//!
//! A styled document tree ([`style::StyledNode`]) is turned into a tree of
//! boxes ([`layout::LayoutBox`]) whose [`layout::Dimensions`] give the
//! position and size, in whole pixels, of every box: widths are resolved
//! top-down by the CSS block-width constraint equations (including the
//! over-constrained and `auto`-margin cases), children are stacked
//! vertically, and heights are resolved bottom-up.

pub mod css;
pub mod style;
pub mod layout;
pub mod laws;
