//! Component logic of a widget library: states, parts, event decisions,
//! active-item groups, trees and child bookkeeping, each with its contract.

pub mod error;
pub mod text;
pub mod widget;
pub mod children;
pub mod state;
pub mod radio;
pub mod switch;
pub mod svg;
pub mod slider;
pub mod tag;
pub mod view;
pub mod select;
pub mod tabbar;
pub mod branch;
pub mod rate;
pub mod progress;
pub mod animation;
pub mod verification;
pub mod popup;
pub mod router;
pub mod tree;
pub mod leaf;
pub mod group;
