//! An interactive terminal navigator over two parallel lists: a fixed list of
//! AI-suggested picks and a paginated remote catalog. This library holds the
//! navigator's state machine: the selection model, the pagination rules, the
//! per-frame status-message lifetime, and the suspend/restore protocol around
//! an external player. Terminal, network and rendering work lives outside it.

pub mod anilist;
pub mod app;
pub mod dispatch;
pub mod gemini;
pub mod laws;
pub mod pagination;
pub mod session;
pub mod text;

pub use app::App;
pub use app::Focus;
