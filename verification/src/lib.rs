//! A chat-network daemon: the registry, channels, sessions and server links
//! of an IRC-like network, written as sequential state machines.
//!
//! Every actor of the daemon is a value with a handler: the handler takes
//! what arrived and returns what is to be sent. Nothing here opens a socket
//! or starts a thread; whoever runs the daemon feeds the handlers and
//! carries their output away.
//!
//! - `text`, `line_parser`, `command`: from a line of text to a command.
//! - `mask`, `reply`, `writer`: from a reply to a line of text.
//! - `find`, `slots`, `registry`, `channel`: the registry of sessions and channels,
//!   and the channels themselves.
//! - `directory`, `membership`: what sessions hold to reach them.
//! - `session`, `link`, `proxy`: client sessions, server links and the
//!   stand-ins for remote users.
//! - `config`: the daemon's settings.
//! - `laws`: what holds of all of this, proved.

pub mod channel;
pub mod command;
pub mod config;
pub mod directory;
pub mod find;
pub mod laws;
pub mod line_parser;
pub mod link;
pub mod mailbox;
pub mod mask;
pub mod membership;
pub mod proxy;
pub mod registry;
pub mod reply;
pub mod session;
pub mod slots;
pub mod text;
pub mod user_msg;
pub mod writer;

pub use channel::{ChannelId, ChannelThreadMsg, ChannelWorker};
pub use command::{ParsedCommand, Verb};
pub use config::{parse_config, Config, ConfigData, ConfigThreadMsg, ConfigWorker};
pub use directory::{ChannelEntry, Directory, DirectoryEntry};
pub use line_parser::LineFSM;
pub use link::{
    burst_masks, parse_nick, LinkEvent, LinkRun, LinkState, LinkStep, ServerWorker,
};
pub use mailbox::ChanError;
pub use mask::Mask;
pub use membership::StoredChannel;
pub use proxy::{VirtualUser, VirtualUserChannels, VirtualUserThreadMsg, VirtualUserWorker};
pub use registry::{Channel, ChannelThread, DirectoryId, DirectoryThreadMsg, DirectoryWorker};
pub use reply::{ProtoOption, WriterData, RPL, SRPL};
pub use session::{Run, SessionEvent, State, Step, UserData, UserWorker, PING_TIMEOUT_MS};
pub use user_msg::{Delivery, User, UserThread, UserThreadMsg};
pub use writer::{ReaderThreadMsg, Writer, WriterThreadMsg, WriterWorker};
