use vstd::prelude::*;
use crate::handler::{KeyEventKind, KeyHandler};
use crate::key_code::{is_known_code, resolve, KeyError};

verus! {

/// How the key-down events of a held key reach its handler.
#[derive(Debug, Clone, Copy, PartialEq, Eq, Structural)]
pub enum Discipline {
    /// Every key-down event fires the handler, repeats of a held key included.
    Primitive,
    /// One key-down per physical press: repeats while the key is held are
    /// dropped before they reach the handler.
    Simplified,
}

/// An event that the host reports for one key.
#[derive(Debug, Clone, Copy, PartialEq, Eq, Structural)]
pub struct KeyEvent {
    pub kind: KeyEventKind,
    /// The host's integer encoding of the key.
    pub raw: u32,
}

/// One event on one key: from whether the key is held, the phase after the
/// event and whether the handler's callback fires.
///
/// An up-event on a key that is not held is a protocol violation of the host
/// and is ignored.
pub open spec fn step(pressed: bool, discipline: Discipline, kind: KeyEventKind) -> (bool, bool) {
    match kind {
        KeyEventKind::Down => (true, discipline == Discipline::Primitive || !pressed),
        KeyEventKind::Up => (false, pressed),
        KeyEventKind::Press => (pressed, true),
    }
}

/// A run of events on one key that starts released: whether the key is held
/// at the end, and the positions of the events that fired a callback.
pub open spec fn run(discipline: Discipline, events: Seq<KeyEventKind>) -> (bool, Seq<int>)
    decreases events.len(),
{
    if events.len() == 0 {
        (false, Seq::empty())
    } else {
        let before = run(discipline, events.drop_last());
        let (pressed, fires) = step(before.0, discipline, events.last());
        (pressed, if fires { before.1.push(events.len() - 1) } else { before.1 })
    }
}

/// The callbacks that a run of events fires, in the order they fire.
pub open spec fn fired(discipline: Discipline, events: Seq<KeyEventKind>) -> Seq<KeyEventKind> {
    run(discipline, events).1.map_values(|i: int| events[i])
}

/// How many times `kind` occurs in `s`.
pub open spec fn count_kind(s: Seq<KeyEventKind>, kind: KeyEventKind) -> nat
    decreases s.len(),
{
    if s.len() == 0 {
        0
    } else {
        count_kind(s.drop_last(), kind) + if s.last() == kind {
            1nat
        } else {
            0nat
        }
    }
}

/// Computes `step`.
pub fn next_phase(pressed: bool, discipline: Discipline, kind: KeyEventKind) -> (r: (bool, bool))
    ensures
        r == step(pressed, discipline, kind),
{
    match kind {
        KeyEventKind::Down => (true, discipline == Discipline::Primitive || !pressed),
        KeyEventKind::Up => (false, pressed),
        KeyEventKind::Press => (pressed, true),
    }
}

proof fn lemma_run(discipline: Discipline, events: Seq<KeyEventKind>)
    ensures
        forall|i: int|
            0 <= i < run(discipline, events).1.len() ==> 0 <= #[trigger] run(discipline, events).1[i]
                < events.len(),
        forall|i: int, j: int|
            0 <= i < j < run(discipline, events).1.len() ==> run(discipline, events).1[i] < run(
                discipline,
                events,
            ).1[j],
        count_kind(fired(discipline, events), KeyEventKind::Up) + (if run(discipline, events).0 {
            1nat
        } else {
            0nat
        }) <= count_kind(fired(discipline, events), KeyEventKind::Down),
        discipline == Discipline::Simplified ==> count_kind(
            fired(discipline, events),
            KeyEventKind::Down,
        ) == count_kind(fired(discipline, events), KeyEventKind::Up) + (if run(
            discipline,
            events,
        ).0 {
            1nat
        } else {
            0nat
        }),
    decreases events.len(),
{
    if events.len() > 0 {
        let prev = events.drop_last();
        lemma_run(discipline, prev);
        let before = run(discipline, prev);
        let now = fired(discipline, events);
        let then = fired(discipline, prev);
        if step(before.0, discipline, events.last()).1 {
            assert(now.drop_last() =~= then);
            assert(now.last() == events.last());
        } else {
            assert(now =~= then);
        }
    }
}

/// For any run of events on one key that starts released, key-up callbacks
/// never outnumber key-down callbacks, and the callbacks fire in the order
/// in which their events arrived, each for an event of the run and of its
/// own kind.
pub proof fn lemma_dispatch_in_order_and_balanced(
    discipline: Discipline,
    events: Seq<KeyEventKind>,
)
    ensures
        count_kind(fired(discipline, events), KeyEventKind::Up) <= count_kind(
            fired(discipline, events),
            KeyEventKind::Down,
        ),
        forall|i: int, j: int|
            0 <= i < j < run(discipline, events).1.len() ==> run(discipline, events).1[i] < run(
                discipline,
                events,
            ).1[j],
        forall|i: int|
            0 <= i < run(discipline, events).1.len() ==> 0 <= #[trigger] run(discipline, events).1[i]
                < events.len() && fired(discipline, events)[i] == events[run(
                discipline,
                events,
            ).1[i]],
{
    lemma_run(discipline, events);
}

/// Under the simplified discipline, each press fires the key-down callback
/// once: the key-down callbacks are the key-up callbacks plus one while the
/// key is still held.
pub proof fn lemma_simplified_one_down_per_press(events: Seq<KeyEventKind>)
    ensures
        count_kind(fired(Discipline::Simplified, events), KeyEventKind::Down) == count_kind(
            fired(Discipline::Simplified, events),
            KeyEventKind::Up,
        ) + (if run(Discipline::Simplified, events).0 {
            1nat
        } else {
            0nat
        }),
{
    lemma_run(Discipline::Simplified, events);
}

/// The handlers of one keyboard surface: at most one per key, each with the
/// phase (held or released) of its key.
pub struct Registry<H: KeyHandler> {
    handlers: Vec<H>,
    pressed: Vec<bool>,
    dispatched: Ghost<Seq<Seq<KeyEventKind>>>,
    discipline: Discipline,
    keypress_enabled: bool,
}

impl<H: KeyHandler> Registry<H> {
    /// The registered handlers.
    pub closed spec fn handlers(&self) -> Seq<H> {
        self.handlers@
    }

    /// Whether the key of each registered handler is held.
    pub closed spec fn phases(&self) -> Seq<bool> {
        self.pressed@
    }

    /// For each registered handler, the kinds of the events that reached its
    /// key since it was registered, in order of arrival.
    pub closed spec fn dispatched(&self) -> Seq<Seq<KeyEventKind>> {
        self.dispatched@
    }

    /// The dispatch discipline of the registry.
    pub closed spec fn discipline(&self) -> Discipline {
        self.discipline
    }

    /// Whether key-press events are enabled.
    pub closed spec fn keypress_enabled(&self) -> bool {
        self.keypress_enabled
    }

    /// One phase per handler, which is where the run of the events that
    /// reached its key has left it; each handler for a key of the table, and
    /// no two handlers for one key.
    pub open spec fn wf(&self) -> bool {
        &&& self.phases().len() == self.handlers().len()
        &&& self.dispatched().len() == self.handlers().len()
        &&& forall|i: int|
            0 <= i < self.handlers().len() ==> #[trigger] self.phases()[i] == run(
                self.discipline(),
                self.dispatched()[i],
            ).0
        &&& forall|i: int|
            0 <= i < self.handlers().len() ==> is_known_code(
                #[trigger] self.handlers()[i].key() as int,
            )
        &&& forall|i: int, j: int|
            0 <= i < j < self.handlers().len() ==> #[trigger] self.handlers()[i].key()
                != #[trigger] self.handlers()[j].key()
    }

    /// The handler at `i` is the one registered for `key`.
    pub open spec fn holds_key(&self, i: int, key: int) -> bool {
        0 <= i < self.handlers().len() && self.handlers()[i].key() == key
    }

    /// Whether a handler is registered for `key`.
    pub open spec fn registered(&self, key: int) -> bool {
        exists|i: int| self.holds_key(i, key)
    }

    /// An empty registry.
    pub fn new(discipline: Discipline, keypress_enabled: bool) -> (r: Self)
        ensures
            r.wf(),
            r.handlers().len() == 0,
            r.discipline() == discipline,
            r.keypress_enabled() == keypress_enabled,
    {
        Registry {
            handlers: Vec::new(),
            pressed: Vec::new(),
            dispatched: Ghost(Seq::empty()),
            discipline,
            keypress_enabled,
        }
    }

    /// How many handlers are registered.
    pub fn len(&self) -> (r: usize)
        ensures
            r == self.handlers().len(),
    {
        self.handlers.len()
    }

    /// Whether the key of the handler for `key` is held; `None` where no
    /// handler is registered for it.
    pub fn is_pressed(&self, key: u32) -> (r: Option<bool>)
        requires
            self.wf(),
        ensures
            r is None <==> !self.registered(key as int),
            forall|i: int| self.holds_key(i, key as int) ==> r == Some(self.phases()[i]),
    {
        match self.find(key) {
            Some(i) => Some(self.pressed[i]),
            None => None,
        }
    }

    /// The handler registered for `key`, if any.
    pub fn get(&self, key: u32) -> (r: Option<&H>)
        requires
            self.wf(),
        ensures
            r is None <==> !self.registered(key as int),
            forall|i: int|
                self.holds_key(i, key as int) ==> (r matches Some(h) && *h == self.handlers()[i]),
    {
        match self.find(key) {
            Some(i) => Some(&self.handlers[i]),
            None => None,
        }
    }

    /// The position of the handler for `key`.
    fn find(&self, key: u32) -> (r: Option<usize>)
        requires
            self.wf(),
        ensures
            r matches Some(i) ==> self.holds_key(i as int, key as int),
            r is None ==> !self.registered(key as int),
    {
        let mut i: usize = 0;
        while i < self.handlers.len()
            invariant
                0 <= i <= self.handlers@.len(),
                forall|j: int| 0 <= j < i ==> !self.holds_key(j, key as int),
            decreases self.handlers@.len() - i,
        {
            if self.handlers[i].identity().repr() as u32 == key {
                return Some(i);
            }
            i = i + 1;
        }
        None
    }

    /// Registers `handler` for its key, in place of the one registered for
    /// that key before; the key starts released.
    ///
    /// Fails with `MisconfiguredCapability` where the handler has a key-press
    /// callback and key-press events are not enabled.
    pub fn register(&mut self, handler: H) -> (r: Result<(), KeyError>)
        requires
            old(self).wf(),
        ensures
            final(self).wf(),
            final(self).discipline() == old(self).discipline(),
            final(self).keypress_enabled() == old(self).keypress_enabled(),
            r is Err <==> handler.keypress_capable() && !old(self).keypress_enabled(),
            r matches Err(e) ==> e == KeyError::MisconfiguredCapability && *final(self) == *old(
                self,
            ),
            r is Ok && old(self).registered(handler.key() as int) ==> forall|i: int|
                old(self).holds_key(i, handler.key() as int) ==> {
                    &&& final(self).handlers() == old(self).handlers().update(i, handler)
                    &&& final(self).phases() == old(self).phases().update(i, false)
                    &&& final(self).dispatched() == old(self).dispatched().update(i, Seq::empty())
                },
            r is Ok && !old(self).registered(handler.key() as int) ==> {
                &&& final(self).handlers() == old(self).handlers().push(handler)
                &&& final(self).phases() == old(self).phases().push(false)
                &&& final(self).dispatched() == old(self).dispatched().push(Seq::empty())
            },
    {
        if handler.has_keypress() && !self.keypress_enabled {
            return Err(KeyError::MisconfiguredCapability);
        }
        let id = handler.identity();
        let key = id.repr();
        let ghost before = self.handlers@;
        match self.find(key as u32) {
            Some(i) => {
                self.handlers.set(i, handler);
                self.pressed.set(i, false);
                self.dispatched = Ghost(self.dispatched@.update(i as int, Seq::empty()));
                assert(self.handlers@ == before.update(i as int, handler));
                assert forall|a: int, b: int|
                    0 <= a < b < self.handlers@.len() implies #[trigger] self.handlers@[a].key()
                    != #[trigger] self.handlers@[b].key() by {
                    assert(before[a].key() != before[b].key());
                }
            },
            None => {
                self.handlers.push(handler);
                self.pressed.push(false);
                self.dispatched = Ghost(self.dispatched@.push(Seq::empty()));
                assert forall|a: int, b: int|
                    0 <= a < b < self.handlers@.len() implies #[trigger] self.handlers@[a].key()
                    != #[trigger] self.handlers@[b].key() by {
                    if b == before.len() {
                        assert(!old(self).holds_key(a, key as int));
                    } else {
                        assert(before[a].key() != before[b].key());
                    }
                }
            },
        }
        Ok(())
    }

    /// Dispatches one host event to the handler of its key.
    ///
    /// A press event where key-press events are not enabled fails with
    /// `MisconfiguredCapability`, and a raw code that names no key with
    /// `UnknownKeyCode`; neither reaches a handler. An event for a key with
    /// no handler is ignored. Otherwise the key's phase moves as `step`
    /// says, and where the callback fires (and, for a press event, the
    /// handler has one) it runs and its kind is returned.
    pub fn dispatch(&mut self, event: KeyEvent) -> (r: Result<Option<KeyEventKind>, KeyError>)
        requires
            old(self).wf(),
        ensures
            final(self).wf(),
            final(self).handlers() == old(self).handlers(),
            final(self).discipline() == old(self).discipline(),
            final(self).keypress_enabled() == old(self).keypress_enabled(),
            event.kind == KeyEventKind::Press && !old(self).keypress_enabled() ==> r == Err::<
                Option<KeyEventKind>,
                KeyError,
            >(KeyError::MisconfiguredCapability),
            (event.kind != KeyEventKind::Press || old(self).keypress_enabled()) && !is_known_code(
                event.raw as int,
            ) ==> r == Err::<Option<KeyEventKind>, KeyError>(KeyError::UnknownKeyCode),
            r is Err || !old(self).registered(event.raw as int) ==> final(self).phases() == old(
                self,
            ).phases() && final(self).dispatched() == old(self).dispatched(),
            (event.kind != KeyEventKind::Press || old(self).keypress_enabled()) && is_known_code(
                event.raw as int,
            ) && !old(self).registered(event.raw as int) ==> r == Ok::<
                Option<KeyEventKind>,
                KeyError,
            >(None),
            (event.kind != KeyEventKind::Press || old(self).keypress_enabled()) ==> forall|i: int|
                #[trigger] old(self).holds_key(i, event.raw as int) ==> {
                    let (next, fires) = step(
                        old(self).phases()[i],
                        old(self).discipline(),
                        event.kind,
                    );
                    let runs = fires && (event.kind == KeyEventKind::Press ==> old(
                        self,
                    ).handlers()[i].keypress_capable());
                    &&& final(self).phases() == old(self).phases().update(i, next)
                    &&& final(self).dispatched() == old(self).dispatched().update(
                        i,
                        old(self).dispatched()[i].push(event.kind),
                    )
                    &&& r == Ok::<Option<KeyEventKind>, KeyError>(
                        if runs {
                            Some(event.kind)
                        } else {
                            None
                        },
                    )
                    &&& runs ==> old(self).handlers()[i].handled(event.kind)
                },
    {
        if event.kind == KeyEventKind::Press && !self.keypress_enabled {
            return Err(KeyError::MisconfiguredCapability);
        }
        let key = match resolve(event.raw) {
            Ok(key) => key,
            Err(e) => return Err(e),
        };
        let i = match self.find(key.repr() as u32) {
            Some(i) => i,
            None => return Ok(None),
        };
        let (next, fires) = next_phase(self.pressed[i], self.discipline, event.kind);
        self.pressed.set(i, next);
        proof {
            let events = self.dispatched@[i as int].push(event.kind);
            assert(events.drop_last() =~= self.dispatched@[i as int]);
        }
        self.dispatched = Ghost(
            self.dispatched@.update(i as int, self.dispatched@[i as int].push(event.kind)),
        );
        if !fires {
            return Ok(None);
        }
        match event.kind {
            KeyEventKind::Down => {
                self.handlers[i].handle_keydown();
                Ok(Some(KeyEventKind::Down))
            },
            KeyEventKind::Up => {
                self.handlers[i].handle_keyup();
                Ok(Some(KeyEventKind::Up))
            },
            KeyEventKind::Press => {
                match self.handlers[i].handle_keypress() {
                    Ok(()) => Ok(Some(KeyEventKind::Press)),
                    Err(_) => Ok(None),
                }
            },
        }
    }
}

/// For each handler of a registry, over the events that reached its key since
/// it was registered: key-up callbacks never outnumber key-down callbacks, a
/// held key has had one key-down more than it has had key-ups at least, and
/// under the simplified discipline exactly one more.
pub proof fn lemma_registry_balanced<H: KeyHandler>(registry: Registry<H>, i: int)
    requires
        registry.wf(),
        0 <= i < registry.handlers().len(),
    ensures
        ({
            let fired = fired(registry.discipline(), registry.dispatched()[i]);
            let held: nat = if registry.phases()[i] {
                1
            } else {
                0
            };
            &&& count_kind(fired, KeyEventKind::Up) <= count_kind(fired, KeyEventKind::Down)
            &&& count_kind(fired, KeyEventKind::Up) + held <= count_kind(fired, KeyEventKind::Down)
            &&& registry.discipline() == Discipline::Simplified ==> count_kind(
                fired,
                KeyEventKind::Down,
            ) == count_kind(fired, KeyEventKind::Up) + held
        }),
{
    lemma_run(registry.discipline(), registry.dispatched()[i]);
}

} // verus!
