//! The engine's support library.
//!
//! Most of it is error reporting. A [`Report`] owns a chain of [`Frame`]s,
//! newest first. Each frame holds a message or a provider of typed data,
//! the place where it was attached, and the frame it wraps. Any consumer can
//! recover data from the chain by naming the tag it wants: a
//! [`Requisition`] bound to that tag is handed to each frame, and every
//! [`Provider`] deposits what it has. The first deposit under the
//! requested tag wins; deposits under any other tag leave the requisition
//! unchanged. A frame hands on all that the provider attached to it
//! deposits, and lends the frame it was wrapped around to its own chain.
//!
//! The rest are small rules that the engine's runners share: the names of
//! the targets, the settings read from the environment, and the channel
//! on which a runner reports back.

mod sealed;
pub mod text;
pub mod tag;
pub mod location;
pub mod datum;
pub mod tags;
pub mod tagged;
pub mod requisition;
pub mod provider;
pub mod attachment;
pub mod frame;
pub mod trace;
pub mod iter;
pub mod report;
pub mod wrap;
pub mod target;
pub mod utils;
pub mod receiver;

pub use crate::attachment::Enclosure;
pub use crate::datum::{Datum, DatumView, Held, Plain, PlainView, Scalar};
pub use crate::frame::{ErrorType, Frame};
pub use crate::iter::{Chain, Request};
pub use crate::location::{Location, LocationView};
pub use crate::provider::{request_by_tag, request_by_type_tag, Provider, Provisions};
pub use crate::report::Report;
pub use crate::requisition::{Requisition, RequisitionView};
pub use crate::tag::{Kind, TagId};
pub use crate::tagged::Tagged;
pub use crate::tags::{
    Custom,
    ErrorLocation,
    ErrorMessage,
    ErrorSource,
    OptionTag,
    Payload,
    PlainTag,
    Ref,
    ResultTag,
    TypeTag,
    Value,
};
pub use crate::target::Target;
pub use crate::wrap::WrapReport;
