//! The application around the engine, as the event loop resumes and
//! suspends it.

use crate::engine::{ActionView, Engine, EngineAction, EngineView, NewWindow, WindowEvent};
use crate::error::Error;
use vstd::prelude::*;
use vstd::string::*;

verus! {

/// How a window is to be created.
#[derive(Debug, Clone, PartialEq, Eq)]
pub struct WindowAttributes {
    /// The title of the window; `None` leaves it to the window system.
    pub title: Option<String>,
}

/// The top of the program: it is either uninitialized or runs an engine.
///
/// The event loop resumes and suspends it. While it is suspended there is
/// no engine, no window and no renderer.
#[derive(Debug)]
pub struct App<W, R> {
    engine: Option<Engine<W, R>>,
}

impl<W, R> View for App<W, R> {
    type V = Option<EngineView<W, R>>;

    closed spec fn view(&self) -> Option<EngineView<W, R>> {
        match self.engine {
            Some(engine) => Some(engine@),
            None => None,
        }
    }
}

impl<W, R> Default for App<W, R> {
    /// An application that has not been resumed yet.
    fn default() -> (app: App<W, R>)
        ensures
            app@ is None,
    {
        App { engine: None }
    }
}

/// The windows that the program opens when it is resumed, in the order in
/// which it opens them: the primary window, with nothing asked of it, and a
/// secondary window titled "Secondary Window".
pub fn startup_windows() -> (windows: Vec<WindowAttributes>)
    ensures
        windows@.len() == 2,
        windows@[0].title is None,
        windows@[1].title matches Some(title) && title@ == "Secondary Window"@,
{
    let mut windows: Vec<WindowAttributes> = Vec::new();
    windows.push(WindowAttributes { title: None });
    windows.push(WindowAttributes { title: Some(String::from_str("Secondary Window")) });
    windows
}

impl<W, R> App<W, R> {
    /// The engine, if there is one, is well formed.
    pub open spec fn wf(&self) -> bool {
        self@ matches Some(engine) ==> engine.wf()
    }

    /// An application that has not been resumed yet.
    pub fn new() -> (app: App<W, R>)
        ensures
            app@ is None,
            app.wf(),
    {
        App { engine: None }
    }

    /// Whether the application runs an engine.
    pub fn is_running(&self) -> (running: bool)
        ensures
            running == self@ is Some,
    {
        self.engine.is_some()
    }

    /// The event loop has resumed the application: the engine comes up on
    /// the primary window that was created for it, and whatever engine there
    /// was before is dropped. Where the window or its renderer could not be
    /// created the application stays as it was, and the failure is reported
    /// as `Bootstrap`: the process cannot go on.
    pub fn resumed(&mut self, primary: Result<NewWindow<W, R>, Error>) -> (result: Result<
        (),
        Error,
    >)
        requires
            old(self).wf(),
        ensures
            final(self).wf(),
            match primary {
                Ok(new) => {
                    &&& result is Ok
                    &&& final(self)@ == Some(
                        EngineView {
                            renderers: Map::<u64, R>::empty().insert(new.id, new.renderer),
                            windows: Map::<u64, W>::empty().insert(new.id, new.window),
                            primary_window_id: new.id,
                        },
                    )
                },
                Err(_) => {
                    &&& result == Err::<(), Error>(Error::Bootstrap)
                    &&& result->Err_0.is_fatal()
                    &&& final(self)@ == old(self)@
                },
            },
    {
        match Engine::new(primary) {
            Ok(engine) => {
                self.engine = Some(engine);
                Ok(())
            },
            Err(e) => Err(e),
        }
    }

    /// Registers a further window with the engine. An application that is
    /// not running refuses it with `InvalidState`; a running one answers as
    /// its engine does. No failure here ends the process: the window is
    /// skipped.
    pub fn create_window(&mut self, created: Result<NewWindow<W, R>, Error>) -> (result: Result<
        u64,
        Error,
    >)
        requires
            old(self).wf(),
        ensures
            final(self).wf(),
            match old(self)@ {
                Some(engine) => (final(self)@, result) == (
                    Some(engine.created(created).0),
                    engine.created(created).1,
                ),
                None => final(self)@ is None && result == Err::<u64, Error>(Error::InvalidState),
            },
    {
        match &mut self.engine {
            Some(engine) => engine.create_window(created),
            None => Err(Error::InvalidState),
        }
    }

    /// Hands an event of a window to the engine. An application that is not
    /// running ignores it.
    pub fn window_event(&mut self, window_id: u64, event: WindowEvent) -> (action: EngineAction<
        W,
        R,
    >)
        requires
            old(self).wf(),
        ensures
            final(self).wf(),
            match old(self)@ {
                Some(engine) => (final(self)@, action@) == (
                    Some(engine.handled(window_id, event).0),
                    engine.handled(window_id, event).1,
                ),
                None => final(self)@ is None && action@ == ActionView::<W, R>::Ignored,
            },
    {
        match &mut self.engine {
            Some(engine) => engine.window_event(window_id, event),
            None => EngineAction::Ignored,
        }
    }

    /// The event loop has suspended the application: the engine goes, and
    /// every window and renderer with it.
    pub fn suspended(&mut self)
        ensures
            final(self)@ is None,
            final(self).wf(),
    {
        self.engine = None;
    }
}

} // verus!
