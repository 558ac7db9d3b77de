//! Verified core of a broadcast chat for a local network: formatting of
//! display lines, the ordered chat log, and the decisions of the sender,
//! listener and render paths.

pub mod config;
pub mod format;
pub mod log;
pub mod record;
pub mod session;
pub mod user;

pub use format::{format_line, format_received, PROMPT, RECV_BUFFER_SIZE};
pub use log::ChatLog;
pub use session::{decide_line, handle_input, Action, ChatCore, Event, InputAction, EXIT_CODE};
pub use user::{choose_username, generate_random_username, RANDOM_NAME_LEN};
pub use record::{format_record, timestamped_record, LOG_FILE_NAME, TIMESTAMP_FORMAT};
pub use config::{bind_address, intro_lines, BROADCAST_ADDRESS, DEFAULT_BIND_ADDRESS};
