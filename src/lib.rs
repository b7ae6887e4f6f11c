pub mod admission;
pub mod laws;
pub mod request;

pub use admission::{Action, Admission, ConfigError, Event, Phase, Pool};
pub use request::{DispatcherRequest, DispatcherResponse, LocalFuture, SendFuture, TaskKind};
