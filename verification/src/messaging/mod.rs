//! Message texts and keyboards sent to Telegram users.
pub mod html;
pub mod keyboards;
pub mod service;
pub mod utils;

pub use service::TelegramMessagingService;

use vstd::prelude::*;

verus! {

/// Represents errors that can occur when sending messages.
#[derive(Debug, Clone, PartialEq, Eq)]
pub enum MessagingError {
    /// A Telegram API request failed (the request error's message).
    TeloxideRequest(String),
}

} // verus!

verus! {

/// The text of a messaging error.
pub open spec fn messaging_error_text(e: MessagingError) -> Seq<char> {
    match e {
        MessagingError::TeloxideRequest(m) => "Teloxide API request failed: "@ + m@,
    }
}

impl MessagingError {
    /// The error's text.
    pub fn message(&self) -> (res: String)
        ensures
            res@ == messaging_error_text(*self),
    {
        match self {
            MessagingError::TeloxideRequest(m) => String::from_str("Teloxide API request failed: ").concat(
                m.as_str(),
            ),
        }
    }
}

} // verus!
