//! The renderer of one window.

use crate::context::{released_in_order, Context, ContextView, Resource, Stage};
use crate::error::Error;
use vstd::prelude::*;

verus! {

/// What draws into one window: it owns the device context of that window.
#[derive(Debug)]
pub struct Renderer {
    context: Context,
}

impl View for Renderer {
    type V = ContextView;

    closed spec fn view(&self) -> ContextView {
        self.context@
    }
}

impl Renderer {
    /// A renderer lives on a context that is ready.
    pub open spec fn wf(&self) -> bool {
        self@.wf() && self@.stage == Stage::Ready
    }

    /// Makes a renderer of a context whose construction has come to an end.
    /// A ready context is taken. A failed one is refused with the error that
    /// failed it, and one that is neither with `InvalidState`. The refused
    /// context comes back with the error, so that the caller can tear it
    /// down.
    pub fn new(context: Context) -> (made: Result<Renderer, (Error, Context)>)
        requires
            context@.wf(),
        ensures
            match made {
                Ok(renderer) => {
                    &&& context@.stage == Stage::Ready
                    &&& renderer@ == context@
                    &&& renderer.wf()
                },
                Err((e, returned)) => {
                    &&& context@.stage != Stage::Ready
                    &&& returned == context
                    &&& e == match context@.failure {
                        Some(failure) => failure,
                        None => Error::InvalidState,
                    }
                },
            },
    {
        if context.is_ready() {
            Ok(Renderer { context })
        } else {
            match context.failure() {
                Some(failure) => Err((failure, context)),
                None => Err((Error::InvalidState, context)),
            }
        }
    }

    /// The context that the renderer draws with.
    pub fn context(&self) -> (context: &Context)
        ensures
            context@ == self@,
    {
        &self.context
    }

    /// Ends the renderer and lists what has to be destroyed, in the order in
    /// which it has to be destroyed: device, surface, instance.
    pub fn teardown(self) -> (trace: Vec<Resource>)
        requires
            self.wf(),
        ensures
            trace@ == self@.acquired.reverse(),
            released_in_order(trace@),
            trace@.len() == if self@.windowed {
                3int
            } else {
                2int
            },
            trace@[0] == Resource::Device,
            trace@.last() == Resource::Instance,
    {
        let mut context = self.context;
        context.teardown()
    }
}

} // verus!
