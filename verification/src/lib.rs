//! Event dispatch core: routes identified events to the module registered for
//! them, either at once for a waiting caller or through a queue that a runner
//! drains.

pub mod channel;
pub mod event;
pub mod response;
pub mod runner;
pub mod sender;
pub mod service;
pub mod system;

pub use channel::QueueEvent;
pub use event::{Event, ModuleRequest};
pub use response::{EventResponse, SystemError};
pub use runner::{RunnerAction, RunnerState, SenderRunner};
pub use sender::{Sender, SenderRequest, SenderService};
pub use service::{Service, ServiceFactory};
pub use system::ModuleMap;
