//! The engine: the registry of windows and their renderers.

use crate::error::Error;
use std::collections::HashMap;
use vstd::prelude::*;

verus! {

broadcast use vstd::std_specs::hash::group_hash_axioms;

/// What the window system reports of a window, as far as the engine reacts
/// to it.
#[derive(Debug, Clone, Copy, PartialEq, Eq, Structural)]
pub enum WindowEvent {
    /// The user asked for the window to be closed.
    CloseRequested,
    /// Anything else. The engine takes no notice.
    Other,
}

/// A window that the window system has created, with the renderer that was
/// built on it.
///
/// The renderer stands before the window, so that a value which is dropped
/// whole lets go of the renderer first.
#[derive(Debug, PartialEq, Eq)]
pub struct NewWindow<W, R> {
    /// The identity that the window system gave the window.
    pub id: u64,
    pub renderer: R,
    pub window: W,
}

/// One thing that the engine hands over to be released.
#[derive(Debug, PartialEq, Eq)]
pub enum Released<W, R> {
    /// A renderer, and with it the device context of its window.
    Renderer(R),
    /// A window handle.
    Window(W),
}

/// What the engine did with an event, and what is left to do for the
/// event loop.
#[derive(Debug, PartialEq, Eq)]
pub enum EngineAction<W, R> {
    /// The primary window was closed. The engine has let go of every window
    /// and renderer, and the event loop is to terminate.
    Exit,
    /// A secondary window was closed. Its entry has left the engine and is
    /// handed over in `released`, in the order in which it is to be
    /// released: the renderer, then the window.
    Closed { window_id: u64, released: Vec<Released<W, R>> },
    /// Nothing was done.
    Ignored,
}

/// What an action is, for contracts.
pub enum ActionView<W, R> {
    Exit,
    Closed { window_id: u64, released: Seq<Released<W, R>> },
    Ignored,
}

/// The engine: one renderer per window, and the window that the process
/// lives and dies with.
///
/// `W` is the window handle and `R` the renderer that owns the device
/// context of the window. The engine keeps both under the window's
/// identity.
#[derive(Debug)]
pub struct Engine<W, R> {
    renderers: HashMap<u64, R>,
    windows: HashMap<u64, W>,
    primary_window_id: u64,
}

/// What an engine is, for contracts.
pub struct EngineView<W, R> {
    pub renderers: Map<u64, R>,
    pub windows: Map<u64, W>,
    pub primary_window_id: u64,
}

/// The order in which the entry of a closed window is released: the
/// renderer, whose context dies with it, before the window handle.
pub open spec fn release_order<W, R>(renderer: R, window: W) -> Seq<Released<W, R>> {
    seq![Released::Renderer(renderer), Released::Window(window)]
}

impl<W, R> View for EngineAction<W, R> {
    type V = ActionView<W, R>;

    open spec fn view(&self) -> ActionView<W, R> {
        match self {
            EngineAction::Exit => ActionView::Exit,
            EngineAction::Closed { window_id, released } => ActionView::Closed {
                window_id: *window_id,
                released: released@,
            },
            EngineAction::Ignored => ActionView::Ignored,
        }
    }
}

impl<W, R> EngineView<W, R> {
    /// The window is registered.
    pub open spec fn contains(self, window_id: u64) -> bool {
        self.windows.contains_key(window_id)
    }

    /// Windows and renderers are registered under the same identities, and
    /// only finitely many of them.
    pub open spec fn wf(self) -> bool {
        &&& self.windows.dom() =~= self.renderers.dom()
        &&& self.windows.dom().finite()
    }

    /// The engine with one more window.
    pub open spec fn insert(self, created: NewWindow<W, R>) -> EngineView<W, R> {
        EngineView {
            renderers: self.renderers.insert(created.id, created.renderer),
            windows: self.windows.insert(created.id, created.window),
            ..self
        }
    }

    /// The engine without the window.
    pub open spec fn remove(self, window_id: u64) -> EngineView<W, R> {
        EngineView {
            renderers: self.renderers.remove(window_id),
            windows: self.windows.remove(window_id),
            ..self
        }
    }

    /// The engine after everything is torn down.
    pub open spec fn cleared(self) -> EngineView<W, R> {
        EngineView { renderers: Map::empty(), windows: Map::empty(), ..self }
    }

    /// What `create_window` owes.
    ///
    /// A window that could not be created is reported with the error that
    /// stopped it, and the engine goes on as it was. A window that was
    /// created is registered with its renderer, whatever else is
    /// registered, unless its identity belongs to a window that is still
    /// registered: then it is refused with `InvalidState`.
    pub open spec fn created(self, created: Result<NewWindow<W, R>, Error>) -> (
        EngineView<W, R>,
        Result<u64, Error>,
    ) {
        match created {
            Ok(new) => if !self.contains(new.id) {
                (self.insert(new), Ok(new.id))
            } else {
                (self, Err(Error::InvalidState))
            },
            Err(e) => (self, Err(e)),
        }
    }

    /// What `window_event` owes.
    ///
    /// Only a close request does anything. On the primary window it ends
    /// the engine: every entry is let go and the event loop is told to
    /// exit. On a registered secondary window it removes that window's entry
    /// from both maps, and nothing else, and hands the entry over in the
    /// order of its release. On a window that is not registered it does
    /// nothing.
    pub open spec fn handled(self, window_id: u64, event: WindowEvent) -> (
        EngineView<W, R>,
        ActionView<W, R>,
    ) {
        if event != WindowEvent::CloseRequested {
            (self, ActionView::Ignored)
        } else if window_id == self.primary_window_id {
            (self.cleared(), ActionView::Exit)
        } else if self.contains(window_id) {
            (
                self.remove(window_id),
                ActionView::Closed {
                    window_id,
                    released: release_order(self.renderers[window_id], self.windows[window_id]),
                },
            )
        } else {
            (self, ActionView::Ignored)
        }
    }
}

impl<W, R> View for Engine<W, R> {
    type V = EngineView<W, R>;

    closed spec fn view(&self) -> EngineView<W, R> {
        EngineView {
            renderers: self.renderers@,
            windows: self.windows@,
            primary_window_id: self.primary_window_id,
        }
    }
}

impl<W, R> Engine<W, R> {
    /// Brings the engine up on its primary window. The window system has
    /// tried to create that window and a renderer on it; without them there
    /// is no engine, and the failure is a `Bootstrap` error whatever caused
    /// it.
    pub fn new(primary: Result<NewWindow<W, R>, Error>) -> (made: Result<Engine<W, R>, Error>)
        ensures
            match primary {
                Ok(new) => {
                    &&& made matches Ok(engine)
                    &&& engine@.wf()
                    &&& engine@ == (EngineView {
                        renderers: Map::<u64, R>::empty().insert(new.id, new.renderer),
                        windows: Map::<u64, W>::empty().insert(new.id, new.window),
                        primary_window_id: new.id,
                    })
                },
                Err(_) => made matches Err(e) && e == Error::Bootstrap,
            },
    {
        match primary {
            Ok(new) => {
                let mut engine = Engine {
                    renderers: HashMap::new(),
                    windows: HashMap::new(),
                    primary_window_id: new.id,
                };
                match engine.create_window(Ok(new)) {
                    Ok(_) => Ok(engine),
                    Err(_) => Err(Error::Bootstrap),
                }
            },
            Err(_) => Err(Error::Bootstrap),
        }
    }

    /// The identity of the primary window.
    pub fn primary_window_id(&self) -> (id: u64)
        ensures
            id == self@.primary_window_id,
    {
        self.primary_window_id
    }

    /// Whether the window is registered.
    pub fn contains(&self, window_id: u64) -> (registered: bool)
        ensures
            registered == self@.contains(window_id),
    {
        self.windows.contains_key(&window_id)
    }

    /// How many windows are registered.
    pub fn len(&self) -> (count: usize)
        requires
            self@.wf(),
        ensures
            count == self@.windows.dom().len(),
            count == self@.renderers.dom().len(),
    {
        self.windows.len()
    }

    /// Registers a window that the window system has created, with its
    /// renderer, or takes note that it could not be created.
    pub fn create_window(&mut self, created: Result<NewWindow<W, R>, Error>) -> (result: Result<
        u64,
        Error,
    >)
        requires
            old(self)@.wf(),
        ensures
            final(self)@.wf(),
            (final(self)@, result) == old(self)@.created(created),
    {
        match created {
            Ok(new) => {
                if self.windows.contains_key(&new.id) {
                    return Err(Error::InvalidState);
                }
                let id = new.id;
                self.windows.insert(id, new.window);
                self.renderers.insert(id, new.renderer);
                Ok(id)
            },
            Err(e) => Err(e),
        }
    }

    /// Reacts to an event on a window.
    pub fn window_event(&mut self, window_id: u64, event: WindowEvent) -> (action: EngineAction<
        W,
        R,
    >)
        requires
            old(self)@.wf(),
        ensures
            final(self)@.wf(),
            (final(self)@, action@) == old(self)@.handled(window_id, event),
    {
        match event {
            WindowEvent::CloseRequested => {
                if window_id == self.primary_window_id {
                    self.renderers.clear();
                    self.windows.clear();
                    EngineAction::Exit
                } else {
                    let renderer = self.renderers.remove(&window_id);
                    let window = self.windows.remove(&window_id);
                    proof {
                        let expected = old(self)@.handled(window_id, event).0;
                        assert(final(self)@.windows =~= expected.windows);
                        assert(final(self)@.renderers =~= expected.renderers);
                    }
                    match (renderer, window) {
                        (Some(renderer), Some(window)) => {
                            let mut released: Vec<Released<W, R>> = Vec::new();
                            released.push(Released::Renderer(renderer));
                            released.push(Released::Window(window));
                            assert(released@ =~= release_order(renderer, window));
                            EngineAction::Closed { window_id, released }
                        },
                        _ => EngineAction::Ignored,
                    }
                }
            },
            WindowEvent::Other => EngineAction::Ignored,
        }
    }
}

/// Windows and renderers always go together: an identity is registered in
/// one map exactly when it is registered in the other.
pub proof fn lemma_maps_agree<W, R>(engine: EngineView<W, R>, window_id: u64)
    requires
        engine.wf(),
    ensures
        engine.windows.contains_key(window_id) <==> engine.renderers.contains_key(window_id),
{
    assert(engine.windows.dom().contains(window_id) <==> engine.renderers.dom().contains(
        window_id,
    ));
}

/// Creating a secondary window and then closing it leaves the engine as it
/// was: the close removes exactly the one entry from both maps, and every
/// other entry stays untouched. The entry is handed over with the renderer
/// before the window.
pub proof fn lemma_create_then_close<W, R>(engine: EngineView<W, R>, new: NewWindow<W, R>)
    requires
        engine.wf(),
        !engine.contains(new.id),
        new.id != engine.primary_window_id,
    ensures
        ({
            let (with, created) = engine.created(Ok(new));
            let (without, action) = with.handled(new.id, WindowEvent::CloseRequested);
            &&& created == Ok::<u64, Error>(new.id)
            &&& with.windows.dom().len() == engine.windows.dom().len() + 1
            &&& with.renderers.dom().len() == engine.renderers.dom().len() + 1
            &&& action == (ActionView::Closed {
                window_id: new.id,
                released: release_order(new.renderer, new.window),
            })
            &&& without.windows == engine.windows
            &&& without.renderers == engine.renderers
            &&& without.primary_window_id == engine.primary_window_id
        }),
{
}

/// Closing a registered secondary window removes exactly one entry from
/// each map and leaves every other entry as it was.
pub proof fn lemma_close_secondary<W, R>(engine: EngineView<W, R>, window_id: u64, other: u64)
    requires
        engine.wf(),
        engine.contains(window_id),
        window_id != engine.primary_window_id,
        other != window_id,
    ensures
        ({
            let (after, _) = engine.handled(window_id, WindowEvent::CloseRequested);
            &&& after.wf()
            &&& !after.contains(window_id)
            &&& !after.renderers.contains_key(window_id)
            &&& after.windows.dom().len() == engine.windows.dom().len() - 1
            &&& after.renderers.dom().len() == engine.renderers.dom().len() - 1
            &&& after.contains(other) == engine.contains(other)
            &&& engine.contains(other) ==> after.windows[other] == engine.windows[other]
                && after.renderers[other] == engine.renderers[other]
        }),
{
}

/// Closing the primary window tells the event loop to exit and leaves no
/// entry in either map.
pub proof fn lemma_close_primary<W, R>(engine: EngineView<W, R>)
    ensures
        ({
            let (after, action) = engine.handled(
                engine.primary_window_id,
                WindowEvent::CloseRequested,
            );
            &&& action == ActionView::<W, R>::Exit
            &&& after.windows.dom().is_empty()
            &&& after.renderers.dom().is_empty()
            &&& after.wf()
        }),
{
}

/// A window is handed over for release after its renderer: in the entry of
/// a closed window the renderer comes first and the window last, and
/// nothing else is in it.
pub proof fn lemma_renderer_before_window<W, R>(
    engine: EngineView<W, R>,
    window_id: u64,
)
    requires
        engine.contains(window_id),
        window_id != engine.primary_window_id,
    ensures
        engine.handled(window_id, WindowEvent::CloseRequested).1 matches ActionView::Closed {
            released,
            ..
        } && released.len() == 2 && released[0] == Released::<W, R>::Renderer(
            engine.renderers[window_id],
        ) && released[1] == Released::<W, R>::Window(engine.windows[window_id]),
{
}

} // verus!
