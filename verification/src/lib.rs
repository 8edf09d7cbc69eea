//! A client for the WebDriver protocol that keeps the socket outside.
//!
//! The library builds every command as a [`WireRequest`], drains and frames
//! the response under the direction of a [`Cycle`], and reads the reply. A
//! driver around it opens the socket, writes, polls and sleeps as it is
//! told, and never decides anything itself.

pub mod actions;
pub mod browser;
pub mod capabilities;
pub mod chromeoptions;
pub mod cycle;
pub mod decode;
pub mod drain;
pub mod element;
pub mod envelope;
pub mod error;
pub mod firefoxoptions;
pub mod frame;
pub mod json;
pub mod length;
pub mod proxy;
pub mod reply;
pub mod reqs;
pub mod safarioptions;
pub mod specialkey;
pub mod text;

pub use crate::actions::{Actions, ActionsKeys, ActionsMouse, ActionsWheel};
pub use crate::browser::{
    Browser, BrowserName, Cookie, Margin, NewWindowType, Orientation, Timeouts, WindowRect,
};
pub use crate::capabilities::Capabilities;
pub use crate::chromeoptions::{ChromeOptions, MobileDevice, PerfLoggingPrefs};
pub use crate::cycle::{Cycle, CycleState, EnvelopePayload, Expectation};
pub use crate::drain::{
    CompletionStrategy, DrainAction, DrainPolicy, DrainStatus, ResponseDrainer,
};
pub use crate::element::Element;
pub use crate::error::{CommandError, TransportError};
pub use crate::firefoxoptions::{FirefoxOptions, LogLevel};
pub use crate::frame::FramedResponse;
pub use crate::proxy::{Proxy, ProxyType};
pub use crate::reqs::{LocatorStrategy, Method, WireRequest};
pub use crate::safarioptions::SafariOptions;
pub use crate::specialkey::{MouseButton, SpecialKey};
