//! Bringing up the browser: the environment is asked for first, then the
//! controller, and each request is answered once. A request that fails ends
//! the start-up for good.

use vstd::prelude::*;
use crate::geometry::Rect;

verus! {

/// How far the start-up has come.
#[derive(Clone, Copy, Debug, PartialEq, Eq, Structural)]
pub enum Startup {
    /// The environment has been asked for.
    AwaitingEnvironment,
    /// The environment is there and the controller has been asked for.
    AwaitingController,
    /// The controller is there and attached.
    Ready,
    /// A request failed.
    Failed,
}

/// The request that failed.
#[derive(Clone, Copy, Debug, PartialEq, Eq, Structural)]
pub enum StartupError {
    /// The environment could not be created.
    Environment,
    /// The controller could not be created.
    Controller,
}

/// How a request ended.
#[derive(Clone, Copy, Debug, PartialEq, Eq, Structural)]
pub struct Completion {
    /// The request reported no error.
    pub succeeded: bool,
    /// The answer carried the object that was asked for.
    pub delivered: bool,
}

/// An answer to one of the two requests.
#[derive(Clone, Copy, Debug, PartialEq, Eq, Structural)]
pub enum StartupEvent {
    /// The request for the environment ended.
    EnvironmentCompleted(Completion),
    /// The request for the controller ended. The rectangle is the window's
    /// client rectangle at that time.
    ControllerCompleted(Completion, Rect),
}

/// The work that an answer asks for.
#[derive(Clone, Copy, Debug, PartialEq, Eq, Structural)]
pub enum StartupAction {
    /// Nothing.
    Nothing,
    /// Ask the environment for the controller.
    RequestController,
    /// Give the browser these bounds and hand the controller on.
    Attach(Rect),
    /// Give up: the program cannot run without what this request was for.
    Abort(StartupError),
}

impl Completion {
    /// Whether the request brought what it was made for.
    pub open spec fn is_ok(self) -> bool {
        self.succeeded && self.delivered
    }
}

impl Startup {
    /// Whether nothing can follow this stage.
    pub open spec fn is_final(self) -> bool {
        self is Ready || self is Failed
    }

    /// The stage after an answer, with the work it asks for. An answer that
    /// the stage does not wait for changes nothing.
    pub open spec fn after(self, event: StartupEvent) -> (Startup, StartupAction) {
        match (self, event) {
            (Startup::AwaitingEnvironment, StartupEvent::EnvironmentCompleted(completion)) => {
                if completion.is_ok() {
                    (Startup::AwaitingController, StartupAction::RequestController)
                } else {
                    (Startup::Failed, StartupAction::Abort(StartupError::Environment))
                }
            },
            (Startup::AwaitingController, StartupEvent::ControllerCompleted(completion, client)) => {
                if completion.is_ok() {
                    (Startup::Ready, StartupAction::Attach(client))
                } else {
                    (Startup::Failed, StartupAction::Abort(StartupError::Controller))
                }
            },
            _ => (self, StartupAction::Nothing),
        }
    }

    /// The stage in which the start-up begins.
    pub fn begin() -> (stage: Startup)
        ensures
            stage is AwaitingEnvironment,
    {
        Startup::AwaitingEnvironment
    }

    /// Takes an answer and decides what follows.
    ///
    /// A good answer moves on: the environment lets the controller be asked
    /// for, the controller is attached with the client rectangle as its
    /// bounds. A bad answer to the awaited request fails the start-up, and
    /// nothing leads out of failure or readiness.
    pub fn advance(self, event: StartupEvent) -> (step: (Startup, StartupAction))
        ensures
            step == self.after(event),
            self.is_final() ==> step == (self, StartupAction::Nothing),
            step.1 is Abort <==> step.0 is Failed && !(self is Failed),
            step.1 == StartupAction::Abort(StartupError::Environment) <==> self
                is AwaitingEnvironment && step.0 is Failed,
            step.1 == StartupAction::Abort(StartupError::Controller) <==> self
                is AwaitingController && step.0 is Failed,
            step.0 is Ready && !(self is Ready) ==> self is AwaitingController
                && event is ControllerCompleted,
    {
        match self {
            Startup::AwaitingEnvironment => match event {
                StartupEvent::EnvironmentCompleted(completion) => {
                    if completion.succeeded && completion.delivered {
                        (Startup::AwaitingController, StartupAction::RequestController)
                    } else {
                        (Startup::Failed, StartupAction::Abort(StartupError::Environment))
                    }
                },
                _ => (self, StartupAction::Nothing),
            },
            Startup::AwaitingController => match event {
                StartupEvent::ControllerCompleted(completion, client) => {
                    if completion.succeeded && completion.delivered {
                        (Startup::Ready, StartupAction::Attach(client))
                    } else {
                        (Startup::Failed, StartupAction::Abort(StartupError::Controller))
                    }
                },
                _ => (self, StartupAction::Nothing),
            },
            _ => (self, StartupAction::Nothing),
        }
    }
}

} // verus!
