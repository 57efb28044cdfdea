//! GUI toolkit components: selection between components, buttons and the
//! tile map font.

use vstd::prelude::*;
use super::GUIEvent;

verus! {

/// Position of character `c` in the font's character order
/// `0-9`, `A-Z`, space, `a-z`; any other character is drawn as a space.
pub open spec fn font_position(c: char) -> int {
    let u = c as u32 as int;
    if 48 <= u <= 57 {
        u - 48
    } else if 65 <= u <= 90 {
        u - 65 + 10
    } else if 97 <= u <= 122 {
        u - 97 + 37
    } else {
        36
    }
}

/// Convert char to position index at game's font tile map.
///
/// The font's tile map has 16 tiles in a row, filled row by row in the
/// character order `0-9`, `A-Z`, space, `a-z`. Any other character is
/// drawn as a space.
///
/// First item in tuple will be x index, and second item will be y index.
pub fn tile_map_index_from_char(c: char) -> (index: (u32, u32))
    ensures
        index.0 == font_position(c) % 16,
        index.1 == font_position(c) / 16,
    decreases if c == ' ' { 0nat } else { 1nat },
{
    match c {
        '0' => (0, 0),
        '1' => (1, 0),
        '2' => (2, 0),
        '3' => (3, 0),
        '4' => (4, 0),
        '5' => (5, 0),
        '6' => (6, 0),
        '7' => (7, 0),
        '8' => (8, 0),
        '9' => (9, 0),
        'A' => (10, 0),
        'B' => (11, 0),
        'C' => (12, 0),
        'D' => (13, 0),
        'E' => (14, 0),
        'F' => (15, 0),
        'G' => (0, 1),
        'H' => (1, 1),
        'I' => (2, 1),
        'J' => (3, 1),
        'K' => (4, 1),
        'L' => (5, 1),
        'M' => (6, 1),
        'N' => (7, 1),
        'O' => (8, 1),
        'P' => (9, 1),
        'Q' => (10, 1),
        'R' => (11, 1),
        'S' => (12, 1),
        'T' => (13, 1),
        'U' => (14, 1),
        'V' => (15, 1),
        'W' => (0, 2),
        'X' => (1, 2),
        'Y' => (2, 2),
        'Z' => (3, 2),
        ' ' => (4, 2),
        'a' => (5, 2),
        'b' => (6, 2),
        'c' => (7, 2),
        'd' => (8, 2),
        'e' => (9, 2),
        'f' => (10, 2),
        'g' => (11, 2),
        'h' => (12, 2),
        'i' => (13, 2),
        'j' => (14, 2),
        'k' => (15, 2),
        'l' => (0, 3),
        'm' => (1, 3),
        'n' => (2, 3),
        'o' => (3, 3),
        'p' => (4, 3),
        'q' => (5, 3),
        'r' => (6, 3),
        's' => (7, 3),
        't' => (8, 3),
        'u' => (9, 3),
        'v' => (10, 3),
        'w' => (11, 3),
        'x' => (12, 3),
        'y' => (13, 3),
        'z' => (14, 3),
        _ => tile_map_index_from_char(' '),
    }
}

/// State of component which implements `GUIUserInteraction` trait.
#[derive(Copy, Clone, PartialEq, Eq, Structural, Debug)]
pub enum GUIComponentState {
    Selected,
    Normal,
}

/// Component alignment.
#[derive(Copy, Clone, PartialEq, Eq, Structural, Debug)]
pub enum GUIComponentAlignment {
    Left,
    Right,
    Center,
}

/// Collision detection, state setting and event saving for components
/// providing user interaction.
pub trait GUIUserInteraction {
    /// Point type of collision detection.
    type Point;

    /// Current state of the component.
    spec fn spec_state(&self) -> GUIComponentState;

    /// Event of the component.
    spec fn spec_event_data(&self) -> GUIEvent;

    /// Is point `point` inside the component area.
    spec fn spec_collision(&self, point: &Self::Point) -> bool;

    /// If point is inside the component area, return true.
    fn collision(&self, point: &Self::Point) -> (hit: bool)
        ensures
            hit == self.spec_collision(point);

    /// Set new state to component.
    fn set_state(&mut self, state: GUIComponentState)
        ensures
            final(self).spec_state() == state,
            final(self).spec_event_data() == old(self).spec_event_data();

    /// Get event data.
    fn event_data(&self) -> (event: GUIEvent)
        ensures
            event == self.spec_event_data();

    /// Set event data.
    fn set_event_data(&mut self, data: GUIEvent)
        ensures
            final(self).spec_event_data() == data,
            final(self).spec_state() == old(self).spec_state();
}

/// Area of a GUI component on the screen: where a pointer touches it.
pub trait GUIArea {
    /// Point type of collision detection.
    type Point;

    /// Is point `point` inside the area. An implementation decides it from
    /// the area and the point alone.
    spec fn covers(&self, point: &Self::Point) -> bool;

    /// If point is inside the area, return true.
    fn collision(&self, point: &Self::Point) -> (hit: bool)
        ensures
            hit == self.covers(point);
}

/// Button: an area on the screen, its selection state and the event of
/// pressing it. How the area is drawn belongs to the area.
pub struct GUIButton<A: GUIArea> {
    area: A,
    state: GUIComponentState,
    event_data: GUIEvent,
}

impl<A: GUIArea> GUIButton<A> {
    /// Area of the button.
    pub closed spec fn spec_area(&self) -> A {
        self.area
    }

    /// Creates new `GUIButton` in its normal state.
    ///
    /// Argument `event_data` is event what will happen when button is pressed.
    pub fn new(area: A, event_data: GUIEvent) -> (button: GUIButton<A>)
        ensures
            button.spec_area() == area,
            button.spec_state() == GUIComponentState::Normal,
            button.spec_event_data() == event_data,
    {
        GUIButton { area, state: GUIComponentState::Normal, event_data }
    }

    /// Get button's area.
    pub fn area(&self) -> (area: &A)
        ensures
            *area == self.spec_area(),
    {
        &self.area
    }

    /// Get button's state.
    pub fn state(&self) -> (state: GUIComponentState)
        ensures
            state == self.spec_state(),
    {
        self.state
    }
}

impl<A: GUIArea> GUIUserInteraction for GUIButton<A> {
    type Point = A::Point;

    closed spec fn spec_state(&self) -> GUIComponentState {
        self.state
    }

    closed spec fn spec_event_data(&self) -> GUIEvent {
        self.event_data
    }

    open spec fn spec_collision(&self, point: &A::Point) -> bool {
        self.spec_area().covers(point)
    }

    fn collision(&self, point: &A::Point) -> (hit: bool) {
        self.area.collision(point)
    }

    fn set_state(&mut self, state: GUIComponentState) {
        self.state = state;
    }

    fn event_data(&self) -> (event: GUIEvent) {
        self.event_data
    }

    fn set_event_data(&mut self, data: GUIEvent) {
        self.event_data = data;
    }
}

/// Selection index after moving the selection up (`up`) or down in a group of
/// `len` components: it wraps around at both ends.
pub open spec fn next_selection(selected: int, len: int, up: bool) -> int {
    if up {
        if selected == 0 { len - 1 } else { selected - 1 }
    } else {
        if selected + 1 >= len { 0 } else { selected + 1 }
    }
}

/// Events of components `components`, in order.
pub open spec fn events_of<T: GUIUserInteraction>(components: Seq<T>) -> Seq<GUIEvent> {
    components.map_values(|c: T| c.spec_event_data())
}

/// Component `i` of `components` is the first one that point `point` is
/// inside of.
pub open spec fn first_collision<T: GUIUserInteraction>(components: Seq<T>, point: &T::Point, i: int) -> bool {
    &&& 0 <= i < components.len()
    &&& components[i].spec_collision(point)
    &&& forall|j: int| 0 <= j < i ==> !(#[trigger] components[j].spec_collision(point))
}

/// Point `point` is inside none of `components`.
pub open spec fn no_collision<T: GUIUserInteraction>(components: Seq<T>, point: &T::Point) -> bool {
    forall|j: int| 0 <= j < components.len() ==> !(#[trigger] components[j].spec_collision(point))
}

/// Event `event` is what a click at point `point` gives on `components`: the
/// event of the first component that the point is inside of, or none when it
/// is inside none of them.
pub open spec fn click_result<T: GUIUserInteraction>(components: Seq<T>, point: &T::Point, event: Option<GUIEvent>) -> bool {
    match event {
        Some(e) => exists|i: int| #[trigger] first_collision(components, point, i) && e == events_of(components)[i],
        None => no_collision(components, point),
    }
}

/// Group `after` is group `before` with its selection moved: the component
/// selected before goes to its normal state, unless it is selected again, and
/// the other components stay as they were.
pub open spec fn selection_moved<T: GUIUserInteraction>(before: GUIGroup<T>, after: GUIGroup<T>) -> bool {
    &&& after.selected() != before.selected()
        ==> after.components()[before.selected()].spec_state() == GUIComponentState::Normal
    &&& forall|j: int|
        0 <= j < before.len() && j != before.selected() && j != after.selected()
            ==> #[trigger] after.components()[j] == before.components()[j]
}

/// Builds non empty `GUIGroups`.
pub struct GUIGroupBuilder<T: GUIUserInteraction> {
    components: Vec<T>,
}

impl<T: GUIUserInteraction> GUIGroupBuilder<T> {
    /// Components added, in order.
    pub closed spec fn components(&self) -> Seq<T> {
        self.components@
    }

    /// Create new `GUIGroupBuilder<T>`.
    pub fn new() -> (builder: GUIGroupBuilder<T>)
        ensures
            builder.components() == Seq::<T>::empty(),
    {
        GUIGroupBuilder { components: Vec::new() }
    }

    /// Add GUI component.
    pub fn add(&mut self, gui_component: T)
        ensures
            final(self).components() == old(self).components().push(gui_component),
    {
        self.components.push(gui_component);
    }

    /// Create `GUIGroup<T>`
    ///
    /// Sets first GUI component selected. The builder must not be empty.
    pub fn create_gui_group(self) -> (group: GUIGroup<T>)
        requires
            self.components().len() > 0,
        ensures
            group.wf(),
            events_of(group.components()) == events_of(self.components()),
            group.selected() == 0,
    {
        let mut components = self.components;
        components[0].set_state(GUIComponentState::Selected);
        proof {
            assert(events_of(components@) =~= events_of(self.components()));
        }
        GUIGroup { components, selected: 0 }
    }
}

/// Handles current selection between GUI components which implements `GUIUserInteraction`
/// trait.
pub struct GUIGroup<T: GUIUserInteraction> {
    components: Vec<T>,
    selected: usize,
}

impl<T: GUIUserInteraction> GUIGroup<T> {
    /// Number of components.
    pub closed spec fn len(&self) -> nat {
        self.components@.len()
    }

    /// Index of the selected component.
    pub closed spec fn selected(&self) -> int {
        self.selected as int
    }

    /// The components.
    pub closed spec fn components(&self) -> Seq<T> {
        self.components@
    }

    /// The selected component is one of the components and is in the
    /// selected state.
    pub open spec fn wf(&self) -> bool {
        &&& 0 <= self.selected() < self.len()
        &&& self.components().len() == self.len()
        &&& self.components()[self.selected()].spec_state() == GUIComponentState::Selected
    }

    /// Create new `GUIGroup<T>`.
    ///
    /// Sets `first_component`'s state as selected.
    pub fn new(first_component: T) -> (group: GUIGroup<T>)
        ensures
            group.wf(),
            events_of(group.components()) == seq![first_component.spec_event_data()],
            group.selected() == 0,
    {
        let mut first_component = first_component;
        first_component.set_state(GUIComponentState::Selected);
        let mut components = Vec::new();
        components.push(first_component);
        proof {
            assert(events_of(components@) =~= seq![first_component.spec_event_data()]);
        }
        GUIGroup { components, selected: 0 }
    }

    /// Adds next component to `GUIGroup`.
    pub fn add(self, component: T) -> (group: GUIGroup<T>)
        requires
            self.wf(),
        ensures
            group.wf(),
            group.selected() == self.selected(),
            group.components() == self.components().push(component),
            events_of(group.components()) == events_of(self.components()).push(component.spec_event_data()),
    {
        let mut group = self;
        group.components.push(component);
        proof {
            assert(events_of(group.components@) =~= events_of(self.components()).push(component.spec_event_data()));
        }
        group
    }

    /// Move selection up.
    ///
    /// The selection will move to the last component if current selection is
    /// the first component.
    pub fn selection_up(&mut self)
        requires
            old(self).wf(),
        ensures
            final(self).wf(),
            final(self).len() == old(self).len(),
            events_of(final(self).components()) == events_of(old(self).components()),
            final(self).selected() == next_selection(old(self).selected(), old(self).len() as int, true),
            selection_moved(*old(self), *final(self)),
    {
        self.update_selection_index(true);
    }

    /// Move selection down.
    ///
    /// The selection will move to the first component if current selection is
    /// the last component.
    pub fn selection_down(&mut self)
        requires
            old(self).wf(),
        ensures
            final(self).wf(),
            final(self).len() == old(self).len(),
            events_of(final(self).components()) == events_of(old(self).components()),
            final(self).selected() == next_selection(old(self).selected(), old(self).len() as int, false),
            selection_moved(*old(self), *final(self)),
    {
        self.update_selection_index(false);
    }

    /// Moves the selection to component `index`: the previously selected
    /// component goes to its normal state and component `index` is selected.
    fn select(&mut self, index: usize)
        requires
            old(self).wf(),
            index < old(self).len(),
        ensures
            final(self).wf(),
            final(self).len() == old(self).len(),
            events_of(final(self).components()) == events_of(old(self).components()),
            final(self).selected() == index,
            selection_moved(*old(self), *final(self)),
    {
        let selected = self.selected;
        self.components[selected].set_state(GUIComponentState::Normal);
        self.selected = index;
        self.components[index].set_state(GUIComponentState::Selected);
        proof {
            assert(events_of(self.components@) =~= events_of(old(self).components()));
        }
    }

    /// Updates selection index and states of components which need updating because of selection
    /// index change.
    fn update_selection_index(&mut self, selection_up: bool)
        requires
            old(self).wf(),
        ensures
            final(self).wf(),
            final(self).len() == old(self).len(),
            events_of(final(self).components()) == events_of(old(self).components()),
            final(self).selected() == next_selection(old(self).selected(), old(self).len() as int, selection_up),
            selection_moved(*old(self), *final(self)),
    {
        let len = self.components.len();
        let index = if selection_up {
            if self.selected == 0 {
                len - 1
            } else {
                self.selected - 1
            }
        } else {
            let i = self.selected + 1;
            if i >= len {
                0
            } else {
                i
            }
        };
        self.select(index);
    }

    /// Get components.
    pub fn get_components(&self) -> (components: &[T])
        ensures
            components@ == self.components(),
    {
        self.components.as_slice()
    }

    /// Get components with mutability.
    pub fn get_components_mut(&mut self) -> (components: &mut [T])
        ensures
            components@ == old(self).components(),
            final(self).components() == final(components)@,
            final(self).selected() == old(self).selected(),
    {
        self.components.as_mut_slice()
    }

    /// Updates selection to the first component where collision is detected.
    /// Without a collision the selection stays.
    pub fn update_selection(&mut self, point: &T::Point)
        requires
            old(self).wf(),
        ensures
            final(self).wf(),
            final(self).len() == old(self).len(),
            events_of(final(self).components()) == events_of(old(self).components()),
            forall|i: int| #[trigger] first_collision(old(self).components(), point, i) ==> final(self).selected() == i,
            no_collision(old(self).components(), point) ==> final(self).selected() == old(self).selected(),
            selection_moved(*old(self), *final(self)),
    {
        let mut index: Option<usize> = None;
        let mut i: usize = 0;
        while i < self.components.len()
            invariant_except_break
                index is None,
            invariant
                i <= self.components@.len(),
                self.components@ == old(self).components(),
                self.selected() == old(self).selected(),
                forall|j: int| 0 <= j < i ==> !(#[trigger] self.components@[j].spec_collision(point)),
            ensures
                match index {
                    Some(k) => first_collision(self.components@, point, k as int),
                    None => no_collision(self.components@, point),
                },
            decreases self.components@.len() - i,
        {
            if self.components[i].collision(point) {
                index = Some(i);
                break;
            }
            i = i + 1;
        }
        proof {
            if let Some(k) = index {
                assert forall|i: int| #[trigger] first_collision(old(self).components(), point, i) implies i == k by {
                    if i < k {
                        assert(!self.components@[i].spec_collision(point));
                    }
                    if k < i {
                        assert(!self.components@[k as int].spec_collision(point));
                    }
                }
            } else {
                assert forall|i: int| #[trigger] first_collision(old(self).components(), point, i) implies false by {
                    assert(!self.components@[i].spec_collision(point));
                }
            }
        }
        if let Some(i) = index {
            self.select(i);
        }
    }

    /// Sets new event to currently selected component.
    pub fn set_event_of_currently_selected_component(&mut self, event: GUIEvent)
        requires
            old(self).wf(),
        ensures
            final(self).wf(),
            final(self).len() == old(self).len(),
            final(self).selected() == old(self).selected(),
            events_of(final(self).components()) == events_of(old(self).components()).update(old(self).selected(), event),
    {
        let selected = self.selected;
        self.components[selected].set_event_data(event);
        proof {
            assert(events_of(self.components@) =~= events_of(old(self).components()).update(old(self).selected(), event));
        }
    }

    /// Get event of component `index`.
    pub(crate) fn event_of_component(&self, index: usize) -> (event: GUIEvent)
        requires
            index < self.len(),
        ensures
            event == events_of(self.components())[index as int],
    {
        self.components[index].event_data()
    }

    /// Sets new event to component `index`.
    pub(crate) fn set_event_of_component(&mut self, index: usize, event: GUIEvent)
        requires
            old(self).wf(),
            index < old(self).len(),
        ensures
            final(self).wf(),
            final(self).len() == old(self).len(),
            final(self).selected() == old(self).selected(),
            events_of(final(self).components()) == events_of(old(self).components()).update(index as int, event),
    {
        self.components[index].set_event_data(event);
        proof {
            assert(events_of(self.components@) =~= events_of(old(self).components()).update(index as int, event));
        }
    }

    /// Get event of currently selected component.
    pub fn event_of_currently_selected_component(&self) -> (event: GUIEvent)
        requires
            self.wf(),
        ensures
            event == events_of(self.components())[self.selected()],
    {
        self.components[self.selected].event_data()
    }

    /// Check collision and return event of the first component where collision was.
    pub fn check_collision_and_return_event(&self, point: &T::Point) -> (event: Option<GUIEvent>)
        ensures
            event matches Some(e) ==> events_of(self.components()).contains(e),
            match event {
                Some(e) => exists|i: int| #[trigger] first_collision(self.components(), point, i)
                    && e == events_of(self.components())[i],
                None => no_collision(self.components(), point),
            },
    {
        let mut i: usize = 0;
        while i < self.components.len()
            invariant
                i <= self.components@.len(),
                forall|j: int| 0 <= j < i ==> !(#[trigger] self.components@[j].spec_collision(point)),
            decreases self.components@.len() - i,
        {
            if self.components[i].collision(point) {
                let e = self.components[i].event_data();
                proof {
                    assert(events_of(self.components())[i as int] == e);
                    assert(first_collision(self.components(), point, i as int));
                }
                return Some(e);
            }
            i = i + 1;
        }
        None
    }
}

/// Moving the selection up and then down, or down and then up, returns to
/// the same component, and the selection stays inside the group.
pub proof fn lemma_selection_up_down_inverse(selected: int, len: int)
    requires
        0 <= selected < len,
    ensures
        0 <= next_selection(selected, len, true) < len,
        0 <= next_selection(selected, len, false) < len,
        next_selection(next_selection(selected, len, true), len, false) == selected,
        next_selection(next_selection(selected, len, false), len, true) == selected,
{
}

/// What a health bar shows of `health`: the filled part, at most
/// `max_value`, and whether it has the low value color, which it has at or
/// below `low_value` when it changes color at all.
pub fn health_bar_state(health: u32, max_value: u32, low_value: u32, change_color_when_low_value: bool) -> (state: (u32, bool))
    ensures
        state.0 == if health > max_value { max_value } else { health },
        state.1 == (health <= low_value && change_color_when_low_value),
{
    let low = health <= low_value && change_color_when_low_value;
    if health > max_value {
        (max_value, low)
    } else {
        (health, low)
    }
}

} // verus!
