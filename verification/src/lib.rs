//! Call, contact and port bookkeeping of the Rusant video-call client: the decisions the
//! client's windows and call callbacks make, with the widgets and streams left to the
//! application around it.
pub mod call;
pub mod call_pane;
pub mod contact_item;
pub mod contact_list;
pub mod main_window;
pub mod media;
pub mod ports;
pub mod shared;
pub mod sodium;
pub mod templates;
pub mod text;
pub mod utils;

pub use shared::add;
pub use sodium::Sodium;
