pub mod greeting;
pub mod lifecycle;
pub mod webview;

pub use greeting::greet;
pub use lifecycle::{plugins, Action, Event, Lifecycle, Phase, Plugin};
