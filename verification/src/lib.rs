//! An SMS bridge between a ZeroMQ subscription and Amazon SNS: the request
//! model, its validation and masking, the configuration, the SNS request,
//! and the decisions of the service loop.
use vstd::prelude::*;

pub mod config;
pub mod error;
pub mod message;
pub mod phone;
pub mod publish;
pub mod service;
pub mod source;

pub use config::{parse_usize, ServiceConfig};
pub use error::ServiceError;
pub use message::ZMQSendSmsMessage;
pub use phone::PhoneParseError;
pub use publish::{prepare_send, SnsPublishRequest, StringAttribute};
pub use service::{ServiceAction, ServiceEvent, ServiceLoop, ServicePhase};
pub use source::{receive_outcome, MessageSource, ReceiveError};

verus! {

} // verus!
