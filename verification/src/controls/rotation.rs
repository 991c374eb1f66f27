//! Free rotation of the camera: what one run of the rotation system does with
//! the window state and the input events it reads.

use vstd::prelude::*;

verus! {

/// Name of the input axis that rolls the camera clockwise or counterclockwise.
pub const ROLL_AXIS: &'static str = "roll_clock_counterclock";

/// An event of the event channel, as the rotation system sees it: a mouse
/// motion with its delta, or anything else.
#[derive(Debug, PartialEq)]
pub enum InputEvent<D> {
    MouseMotion(D),
    Other,
}

/// What one run of the rotation system does to the rotated entities.
#[derive(Debug, PartialEq)]
pub enum RotationStep<D> {
    /// The window is not focused or the cursor is shown: nothing turns, and
    /// the events are only drained.
    Inactive,
    /// Nothing moved and there is no roll: the entities are left alone.
    Unchanged,
    /// Each entity yaws and pitches by each mouse delta in turn, then rolls.
    Rotate(Vec<D>),
}

/// The mouse deltas of a sequence of events, in the order of the events.
pub open spec fn mouse_moves<D>(events: Seq<InputEvent<D>>) -> Seq<D>
    decreases events.len(),
{
    if events.len() == 0 {
        seq![]
    } else {
        let earlier = mouse_moves(events.drop_last());
        match events.last() {
            InputEvent::MouseMotion(delta) => earlier.push(delta),
            InputEvent::Other => earlier,
        }
    }
}

/// Whether the rotation system turns anything at all: only while the window
/// has the focus and the cursor is hidden.
pub open spec fn rotation_active(window_focused: bool, cursor_hidden: bool) -> bool {
    window_focused && cursor_hidden
}

/// The mouse deltas of two runs of events are those of the first run followed
/// by those of the second: deltas keep the order in which their events came.
pub proof fn lemma_mouse_moves_append<D>(a: Seq<InputEvent<D>>, b: Seq<InputEvent<D>>)
    ensures
        mouse_moves(a + b) == mouse_moves(a) + mouse_moves(b),
    decreases b.len(),
{
    if b.len() == 0 {
        assert(a + b =~= a);
        assert(mouse_moves(a) + mouse_moves(b) =~= mouse_moves(a));
    } else {
        lemma_mouse_moves_append(a, b.drop_last());
        assert((a + b).drop_last() =~= a + b.drop_last());
        assert((a + b).last() == b.last());
        match b.last() {
            InputEvent::MouseMotion(d) => {
                assert(mouse_moves(a) + mouse_moves(b) =~= (mouse_moves(a) + mouse_moves(
                    b.drop_last(),
                )).push(d));
            },
            InputEvent::Other => {},
        }
    }
}

/// A single mouse motion contributes its delta, and any other event nothing.
pub proof fn lemma_mouse_moves_single<D>(e: InputEvent<D>)
    ensures
        mouse_moves(seq![e]) == (match e {
            InputEvent::MouseMotion(d) => seq![d],
            InputEvent::Other => Seq::<D>::empty(),
        }),
{
    assert(seq![e].drop_last() =~= Seq::<InputEvent<D>>::empty());
    assert(mouse_moves(Seq::<InputEvent<D>>::empty()) == Seq::<D>::empty());
    assert(seq![e].last() == e);
    match e {
        InputEvent::MouseMotion(d) => {
            assert(Seq::<D>::empty().push(d) =~= seq![d]);
        },
        InputEvent::Other => {},
    }
}

/// System that pitches, yaws and rolls the entities locally. It holds the
/// reader of the event channel that `setup` registers.
pub struct MyFreeRotationSystem<R> {
    event_reader: Option<R>,
}

impl<R> View for MyFreeRotationSystem<R> {
    type V = Option<R>;

    /// The event reader, once the system has been set up.
    closed spec fn view(&self) -> Option<R> {
        self.event_reader
    }
}

impl<R> MyFreeRotationSystem<R> {
    /// A system that has not been set up yet.
    pub fn new() -> (system: Self)
        ensures
            system@ is None,
    {
        MyFreeRotationSystem { event_reader: None }
    }

    /// Keeps the reader registered with the event channel.
    pub fn setup(&mut self, reader: R)
        ensures
            final(self)@ == Some(reader),
    {
        self.event_reader = Some(reader);
    }

    /// Whether `setup` has run.
    pub fn is_set_up(&self) -> (set_up: bool)
        ensures
            set_up == self@ is Some,
    {
        self.event_reader.is_some()
    }

    /// The event reader, to read the channel with.
    pub fn event_reader_mut(&mut self) -> (reader: &mut R)
        requires
            old(self)@ is Some,
        ensures
            *reader == old(self)@->0,
            final(self)@ == Some(*final(reader)),
    {
        self.event_reader.as_mut().unwrap()
    }

    /// Decides what one run of the system does. Outside of a focused window
    /// with a hidden cursor it does nothing but drain the events; otherwise it
    /// turns the entities by the mouse deltas among `events`, in order, and
    /// by the roll, unless there is neither a delta nor a roll.
    pub fn run<D: Copy>(
        &self,
        window_focused: bool,
        cursor_hidden: bool,
        events: &Vec<InputEvent<D>>,
        roll_nonzero: bool,
    ) -> (step: RotationStep<D>)
        requires
            self@ is Some,
        ensures
            step is Inactive <==> !rotation_active(window_focused, cursor_hidden),
            step is Unchanged <==> rotation_active(window_focused, cursor_hidden)
                && mouse_moves(events@).len() == 0 && !roll_nonzero,
            step matches RotationStep::Rotate(moves) ==> moves@ == mouse_moves(events@),
    {
        if !(window_focused && cursor_hidden) {
            return RotationStep::Inactive;
        }
        let mut moves: Vec<D> = Vec::new();
        let n = events.len();
        for i in 0..n
            invariant
                n == events@.len(),
                moves@ == mouse_moves(events@.subrange(0, i as int)),
        {
            proof {
                assert(events@.subrange(0, i + 1).drop_last() =~= events@.subrange(0, i as int));
                assert(events@.subrange(0, i + 1).last() == events@[i as int]);
            }
            match &events[i] {
                InputEvent::MouseMotion(delta) => moves.push(*delta),
                InputEvent::Other => {},
            }
        }
        proof {
            assert(events@.subrange(0, n as int) =~= events@);
        }
        if moves.len() == 0 && !roll_nonzero {
            RotationStep::Unchanged
        } else {
            RotationStep::Rotate(moves)
        }
    }
}

} // verus!
