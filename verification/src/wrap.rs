//! Turning a failing `Result` or an empty `Option` into a report.

use vstd::prelude::*;
use vstd::string::*;
use crate::frame::{ErrorType, Frame};
use crate::location::Location;
use crate::provider::Provider;
use crate::report::Report;

verus! {

/// Attaches context to a failure, and leaves a success as it is.
///
/// The closures of the `_with` forms are called on the failure path only.
pub trait WrapReport<T>: Sized {
    /// The value that this holds where it stands for a success.
    spec fn success(&self) -> Option<T>;

    /// On failure, a report with `context` as its newest message.
    fn wrap_err(self, context: String, location: Location) -> (result: Result<T, Report>)
        ensures
            self.success() matches Some(value) ==> result == Ok::<T, Report>(value),
            self.success() is None ==> result is Err,
    ;

    /// On failure, a report with the message that `context` returns as its
    /// newest message.
    fn wrap_err_with<F: FnOnce() -> String>(self, context: F, location: Location) -> (result:
        Result<T, Report>)
        requires
            self.success() is None ==> context.requires(()),
        ensures
            self.success() matches Some(value) ==> result == Ok::<T, Report>(value),
            self.success() is None ==> result is Err,
    ;

    /// On failure, a report with `provider` in its newest frame.
    fn provide<P: Provider + Send + Sync + 'static>(self, provider: P, location: Location) -> (result:
        Result<T, Report>)
        ensures
            self.success() matches Some(value) ==> result == Ok::<T, Report>(value),
            self.success() is None ==> result is Err,
    ;

    /// On failure, a report with what `provider` returns in its newest
    /// frame.
    fn provide_with<P: Provider + Send + Sync + 'static, F: FnOnce() -> P>(
        self,
        provider: F,
        location: Location,
    ) -> (result: Result<T, Report>)
        requires
            self.success() is None ==> provider.requires(()),
        ensures
            self.success() matches Some(value) ==> result == Ok::<T, Report>(value),
            self.success() is None ==> result is Err,
    ;
}

/// Whether `report` is what a failure with `error` becomes: a frame of
/// some message that `error` displays, under a newer frame that holds
/// `newest`, both attached at `location`.
pub open spec fn reports_error<E: core::fmt::Display + Send + Sync + 'static>(
    report: Report,
    error: E,
    newest: ErrorType,
    location: Location,
) -> bool {
    exists|message: String| #[trigger]
        to_string_from_display_ensures::<E>(&error, message) && report.head() == (Frame {
            error: newest,
            location,
            source: Some(
                Box::new(Frame { error: ErrorType::Error(message), location, source: None }),
            ),
        })
}

impl<T, E: core::fmt::Display + Send + Sync + 'static> WrapReport<T> for Result<T, E> {
    open spec fn success(&self) -> Option<T> {
        match self {
            Ok(value) => Some(*value),
            Err(_) => None,
        }
    }

    /// A failure becomes a report of two frames: the error, and `context`
    /// on top of it.
    fn wrap_err(self, context: String, location: Location) -> (result: Result<T, Report>)
        ensures
            match (self, result) {
                (Err(error), Err(report)) => reports_error(
                    report,
                    error,
                    ErrorType::Message(context),
                    location,
                ),
                (Err(_), Ok(_)) => false,
                (Ok(_), _) => true,
            },
    {
        match self {
            Ok(value) => Ok(value),
            Err(error) => {
                let report = Report::from_error(error, location).context(context, location);
                Err(report)
            },
        }
    }

    /// A failure becomes a report of two frames: the error, and the
    /// message that `context` returns on top of it.
    fn wrap_err_with<F: FnOnce() -> String>(self, context: F, location: Location) -> (result:
        Result<T, Report>)
        ensures
            match (self, result) {
                (Err(error), Err(report)) => exists|message: String| #[trigger]
                    context.ensures((), message) && reports_error(
                        report,
                        error,
                        ErrorType::Message(message),
                        location,
                    ),
                (Err(_), Ok(_)) => false,
                (Ok(_), _) => true,
            },
    {
        match self {
            Ok(value) => Ok(value),
            Err(error) => {
                let message = context();
                let report = Report::from_error(error, location).context(message, location);
                assert(context.ensures((), message) && reports_error(
                    report,
                    error,
                    ErrorType::Message(message),
                    location,
                ));
                Err(report)
            },
        }
    }

    /// A failure becomes a report of two frames: the error, and `provider`
    /// on top of it.
    fn provide<P: Provider + Send + Sync + 'static>(self, provider: P, location: Location) -> (result:
        Result<T, Report>)
        ensures
            match (self, result) {
                (Err(error), Err(report)) => report.head().error.attaches(provider)
                    && reports_error(report, error, report.head().error, location),
                (Err(_), Ok(_)) => false,
                (Ok(_), _) => true,
            },
    {
        match self {
            Ok(value) => Ok(value),
            Err(error) => {
                let report = Report::from_error(error, location).provide(provider, location);
                Err(report)
            },
        }
    }

    /// A failure becomes a report of two frames: the error, and what
    /// `provider` returns on top of it.
    fn provide_with<P: Provider + Send + Sync + 'static, F: FnOnce() -> P>(
        self,
        provider: F,
        location: Location,
    ) -> (result: Result<T, Report>)
        ensures
            match (self, result) {
                (Err(error), Err(report)) => exists|made: P| #[trigger]
                    provider.ensures((), made) && report.head().error.attaches(made)
                        && reports_error(report, error, report.head().error, location),
                (Err(_), Ok(_)) => false,
                (Ok(_), _) => true,
            },
    {
        match self {
            Ok(value) => Ok(value),
            Err(error) => {
                let made = provider();
                let report = Report::from_error(error, location).provide(made, location);
                assert(provider.ensures((), made) && report.head().error.attaches(made)
                    && reports_error(report, error, report.head().error, location));
                Err(report)
            },
        }
    }
}

impl<T> WrapReport<T> for Result<T, Report> {
    open spec fn success(&self) -> Option<T> {
        match self {
            Ok(value) => Some(*value),
            Err(_) => None,
        }
    }

    /// A failure's report gets one more frame, which holds `context`.
    fn wrap_err(self, context: String, location: Location) -> (result: Result<T, Report>)
        ensures
            match (self, result) {
                (Err(report), Err(wrapped)) => wrapped.extends(
                    report,
                    ErrorType::Message(context),
                    location,
                ),
                (Err(_), Ok(_)) => false,
                (Ok(_), _) => true,
            },
    {
        match self {
            Ok(value) => Ok(value),
            Err(report) => Err(report.context(context, location)),
        }
    }

    /// A failure's report gets one more frame, which holds the message
    /// that `context` returns.
    fn wrap_err_with<F: FnOnce() -> String>(self, context: F, location: Location) -> (result:
        Result<T, Report>)
        ensures
            match (self, result) {
                (Err(report), Err(wrapped)) => exists|message: String|
                    #[trigger] context.ensures((), message) && wrapped.extends(
                        report,
                        ErrorType::Message(message),
                        location,
                    ),
                (Err(_), Ok(_)) => false,
                (Ok(_), _) => true,
            },
    {
        match self {
            Ok(value) => Ok(value),
            Err(report) => {
                let message = context();
                let wrapped = report.context(message, location);
                assert(context.ensures((), message) && wrapped.extends(
                    report,
                    ErrorType::Message(message),
                    location,
                ));
                Err(wrapped)
            },
        }
    }

    /// A failure's report gets one more frame, which holds `provider`.
    fn provide<P: Provider + Send + Sync + 'static>(self, provider: P, location: Location) -> (result:
        Result<T, Report>)
        ensures
            match (self, result) {
                (Err(report), Err(wrapped)) => wrapped.extends_with(report, provider, location),
                (Err(_), Ok(_)) => false,
                (Ok(_), _) => true,
            },
    {
        match self {
            Ok(value) => Ok(value),
            Err(report) => Err(report.provide(provider, location)),
        }
    }

    /// A failure's report gets one more frame, which holds what `provider`
    /// returns.
    fn provide_with<P: Provider + Send + Sync + 'static, F: FnOnce() -> P>(
        self,
        provider: F,
        location: Location,
    ) -> (result: Result<T, Report>)
        ensures
            match (self, result) {
                (Err(report), Err(wrapped)) => exists|made: P|
                    #[trigger] provider.ensures((), made) && wrapped.extends_with(
                        report,
                        made,
                        location,
                    ),
                (Err(_), Ok(_)) => false,
                (Ok(_), _) => true,
            },
    {
        match self {
            Ok(value) => Ok(value),
            Err(report) => {
                let made = provider();
                let wrapped = report.provide(made, location);
                assert(provider.ensures((), made) && wrapped.extends_with(report, made, location));
                Err(wrapped)
            },
        }
    }
}

impl<T> WrapReport<T> for Option<T> {
    open spec fn success(&self) -> Option<T> {
        *self
    }

    /// `None` becomes a report of one frame, which holds `context`.
    fn wrap_err(self, context: String, location: Location) -> (result: Result<T, Report>)
        ensures
            match (self, result) {
                (None, Err(report)) => report.begins(ErrorType::Message(context), location),
                (None, Ok(_)) => false,
                (Some(_), _) => true,
            },
    {
        match self {
            Some(value) => Ok(value),
            None => Err(Report::from_message(context, location)),
        }
    }

    /// `None` becomes a report of one frame, which holds the message that
    /// `context` returns.
    fn wrap_err_with<F: FnOnce() -> String>(self, context: F, location: Location) -> (result:
        Result<T, Report>)
        ensures
            match (self, result) {
                (None, Err(report)) => exists|message: String|
                    #[trigger] context.ensures((), message) && report.begins(
                        ErrorType::Message(message),
                        location,
                    ),
                (None, Ok(_)) => false,
                (Some(_), _) => true,
            },
    {
        match self {
            Some(value) => Ok(value),
            None => {
                let message = context();
                let report = Report::from_message(message, location);
                assert(context.ensures((), message) && report.begins(
                    ErrorType::Message(message),
                    location,
                ));
                Err(report)
            },
        }
    }

    /// `None` becomes a report of one frame, which holds `provider`.
    fn provide<P: Provider + Send + Sync + 'static>(self, provider: P, location: Location) -> (result:
        Result<T, Report>)
        ensures
            match (self, result) {
                (None, Err(report)) => report.begins_with(provider, location),
                (None, Ok(_)) => false,
                (Some(_), _) => true,
            },
    {
        match self {
            Some(value) => Ok(value),
            None => Err(Report::from_provider(provider, location)),
        }
    }

    /// `None` becomes a report of one frame, which holds what `provider`
    /// returns.
    fn provide_with<P: Provider + Send + Sync + 'static, F: FnOnce() -> P>(
        self,
        provider: F,
        location: Location,
    ) -> (result: Result<T, Report>)
        ensures
            match (self, result) {
                (None, Err(report)) => exists|made: P|
                    #[trigger] provider.ensures((), made) && report.begins_with(made, location),
                (None, Ok(_)) => false,
                (Some(_), _) => true,
            },
    {
        match self {
            Some(value) => Ok(value),
            None => {
                let made = provider();
                let report = Report::from_provider(made, location);
                assert(provider.ensures((), made) && report.begins_with(made, location));
                Err(report)
            },
        }
    }
}

} // verus!
