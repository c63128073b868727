//! What the operations of the library are for, said of their results: whatever an
//! operation gives back meets the promises that stand here.

pub mod choices;
pub mod colors;
pub mod drawing;
pub mod figures;
pub mod inputs;
pub mod keeping;
pub mod panels;
pub mod parts;
pub mod placement;
pub mod pointer;
pub mod polling;
pub mod texts;
pub mod updates;
pub mod windows;
