//! A snapshot of what can be captured, and the filter that picks from it.

use vstd::prelude::*;

verus! {

/// One display of a content snapshot.
#[derive(Debug, Clone, Copy, PartialEq, Eq, Structural, Hash)]
pub struct SCDisplay {
    pub display_id: u32,
    /// Width in pixels.
    pub width: u32,
    /// Height in pixels.
    pub height: u32,
}

/// A snapshot of the displays that can be captured.
#[derive(Debug)]
pub struct SCShareableContent {
    displays: Vec<SCDisplay>,
}

/// Whether `at` is the first place in `displays` with the id `id`.
pub open spec fn is_first_with_id(displays: Seq<SCDisplay>, id: u32, at: int) -> bool {
    &&& 0 <= at < displays.len()
    &&& displays[at].display_id == id
    &&& forall|j: int| 0 <= j < at ==> displays[j].display_id != id
}

impl View for SCShareableContent {
    type V = Seq<SCDisplay>;

    closed spec fn view(&self) -> Seq<SCDisplay> {
        self.displays@
    }
}

impl SCShareableContent {
    /// A snapshot of `displays`, in their order.
    pub fn new(displays: Vec<SCDisplay>) -> (content: Self)
        ensures
            content@ == displays@,
    {
        SCShareableContent { displays }
    }

    /// How many displays the snapshot holds.
    pub fn display_count(&self) -> (n: usize)
        ensures
            n == self@.len(),
    {
        self.displays.len()
    }

    /// The display at `index`, if there is one.
    pub fn display_at(&self, index: usize) -> (d: Option<SCDisplay>)
        ensures
            d == (if index < self@.len() {
                Some(self@[index as int])
            } else {
                None
            }),
    {
        if index < self.displays.len() {
            Some(self.displays[index])
        } else {
            None
        }
    }

    /// The first display with the id `id`, if there is one.
    pub fn display_with_id(&self, id: u32) -> (d: Option<SCDisplay>)
        ensures
            d is Some <==> exists|i: int| 0 <= i < self@.len() && self@[i].display_id == id,
            d is Some ==> exists|i: int| is_first_with_id(self@, id, i) && self@[i] == d->Some_0,
    {
        let mut i: usize = 0;
        while i < self.displays.len()
            invariant
                i <= self@.len(),
                self@ == self.displays@,
                forall|j: int| 0 <= j < i ==> self@[j].display_id != id,
            decreases self@.len() - i,
        {
            if self.displays[i].display_id == id {
                assert(is_first_with_id(self@, id, i as int));
                return Some(self.displays[i]);
            }
            i += 1;
        }
        None
    }
}

/// What to capture: one display, without some of its windows.
#[derive(Debug)]
pub struct SCContentFilter {
    display: SCDisplay,
    excluded_windows: Vec<u32>,
}

impl SCContentFilter {
    /// The display that is captured.
    pub closed spec fn display_of(&self) -> SCDisplay {
        self.display
    }

    /// The ids of the windows that are left out.
    pub closed spec fn excluded(&self) -> Seq<u32> {
        self.excluded_windows@
    }

    /// The filter for `display` without the windows `exclude_windows`.
    pub fn for_display(display: SCDisplay, exclude_windows: Vec<u32>) -> (filter: Self)
        ensures
            filter.display_of() == display,
            filter.excluded() == exclude_windows@,
    {
        SCContentFilter { display, excluded_windows: exclude_windows }
    }

    /// The display that is captured.
    pub fn display(&self) -> (d: SCDisplay)
        ensures
            d == self.display_of(),
    {
        self.display
    }

    /// How many windows are left out.
    pub fn excluded_window_count(&self) -> (n: usize)
        ensures
            n == self.excluded().len(),
    {
        self.excluded_windows.len()
    }

    /// Whether the window `window_id` is left out.
    pub fn excludes(&self, window_id: u32) -> (b: bool)
        ensures
            b == self.excluded().contains(window_id),
    {
        let mut i: usize = 0;
        while i < self.excluded_windows.len()
            invariant
                i <= self.excluded().len(),
                self.excluded() == self.excluded_windows@,
                forall|j: int| 0 <= j < i ==> self.excluded()[j] != window_id,
            decreases self.excluded().len() - i,
        {
            if self.excluded_windows[i] == window_id {
                return true;
            }
            i += 1;
        }
        false
    }
}

} // verus!
