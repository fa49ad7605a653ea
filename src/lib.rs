pub mod event;
pub mod settings;
pub mod dispatcher;
pub mod tick;

pub use event::{Event, EventResult};
pub use settings::{TerminalAction, WindowManagerSettings};
pub use dispatcher::{Delivery, Dispatcher, SetupError, Step, DEFAULT_TICK_RATE_MS};
pub use tick::{tick_step, TickStep};
