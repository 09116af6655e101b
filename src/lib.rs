//! A status bot's core: the poller that decides what presence to show for a
//! game server's player count, and the rendering of on-demand status replies.

pub mod colour;
pub mod presence;
pub mod reply;
pub mod text;
