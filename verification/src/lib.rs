//! A persistent-connection request multiplexer: a shared multi-producer
//! message queue feeds a single-threaded, event-driven connection state
//! machine that drives one HTTP-shaped request/response exchange at a time.

pub mod laws;

mod fsm;
mod msg;
mod percolate;
mod queue;

pub use fsm::Config;
pub use fsm::ConnState;
pub use fsm::Context;
pub use fsm::FailureKind;
pub use fsm::Fsm;
pub use fsm::Head;
pub use fsm::OutRequest;
pub use fsm::RecvMode;
pub use fsm::ReqState;
pub use fsm::RequestFsm;
pub use fsm::Task;
pub use fsm::spec_valid_status;

pub use msg::Message;
pub use msg::Method;
pub use percolate::get_index_type;
pub use percolate::get_index_type_id;
pub use percolate::percolate_suffix;
pub use percolate::post_index_type;
pub use percolate::post_index_type_id;
pub use queue::Handle;
pub use queue::Notifier;
pub use queue::Queue;
