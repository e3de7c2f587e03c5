//! Windows and the registry that owns them.

use crate::config::Length;
use crate::envelope::{ShellError, ShellErrorView};
use crate::text::{
    decimal, decimal_text, lemma_decimal_injective, lemma_decimal_nonempty, same_text,
};
use vstd::prelude::*;
use vstd::string::*;

verus! {

/// The extent of a window, in logical pixels.
#[derive(Clone, Copy, Debug, PartialEq, Eq, Structural)]
pub struct Size {
    pub width: Length,
    pub height: Length,
}

/// What a window shows.
#[derive(Debug, PartialEq, Eq)]
pub enum WindowTarget {
    /// A resource that ships with the application.
    App(String),
    /// The serialisation of an absolute URL.
    External(String),
}

/// What a [`WindowTarget`] holds.
pub enum WindowTargetView {
    App(Seq<char>),
    External(Seq<char>),
}

impl View for WindowTarget {
    type V = WindowTargetView;

    open spec fn view(&self) -> WindowTargetView {
        match self {
            WindowTarget::App(path) => WindowTargetView::App(path@),
            WindowTarget::External(address) => WindowTargetView::External(address@),
        }
    }
}

impl Clone for WindowTarget {
    fn clone(&self) -> (copy: WindowTarget)
        ensures
            copy@ == self@,
    {
        match self {
            WindowTarget::App(path) => WindowTarget::App(path.clone()),
            WindowTarget::External(address) => WindowTarget::External(address.clone()),
        }
    }
}

/// The description of one window.
#[derive(Debug, PartialEq, Eq)]
pub struct WindowHandle {
    pub id: String,
    pub title: String,
    pub target: WindowTarget,
    pub size: Size,
    pub min_size: Size,
}

/// What a [`WindowHandle`] holds.
pub struct WindowHandleView {
    pub id: Seq<char>,
    pub title: Seq<char>,
    pub target: WindowTargetView,
    pub size: Size,
    pub min_size: Size,
}

impl View for WindowHandle {
    type V = WindowHandleView;

    open spec fn view(&self) -> WindowHandleView {
        WindowHandleView {
            id: self.id@,
            title: self.title@,
            target: self.target@,
            size: self.size,
            min_size: self.min_size,
        }
    }
}

impl Clone for WindowHandle {
    fn clone(&self) -> (copy: WindowHandle)
        ensures
            copy@ == self@,
    {
        WindowHandle {
            id: self.id.clone(),
            title: self.title.clone(),
            target: self.target.clone(),
            size: self.size,
            min_size: self.min_size,
        }
    }
}

/// The largest clock reading. Stamps stay below it, so that the stamp after
/// the last one issued can always be written down; a reading at the limit
/// stamps nothing.
pub const STAMP_LIMIT: u64 = 0x7FFF_FFFF_FFFF_FFFF;

/// The id of the window that is stamped `serial`.
pub open spec fn window_label(serial: nat) -> Seq<char> {
    "window_"@ + decimal(serial)
}

/// Different stamps give different ids.
pub proof fn lemma_window_label_injective(a: nat, b: nat)
    requires
        window_label(a) == window_label(b),
    ensures
        a == b,
{
    let start = "window_"@.len() as int;
    assert(decimal(a) =~= window_label(a).subrange(start, window_label(a).len() as int));
    assert(decimal(b) =~= window_label(b).subrange(start, window_label(b).len() as int));
    lemma_decimal_injective(a, b);
}

/// No stamped id is the id `main`.
pub proof fn lemma_window_label_not_main(serial: nat)
    ensures
        window_label(serial) != "main"@,
{
    reveal_strlit("window_");
    reveal_strlit("main");
    lemma_decimal_nonempty(serial);
    assert(window_label(serial).len() >= 8);
    assert("main"@.len() == 4);
}

/// Writes the id of the window that is stamped `serial`.
pub fn window_label_text(serial: u64) -> (label: String)
    ensures
        label@ == window_label(serial as nat),
{
    let mut label = "window_".to_owned();
    let numeral = decimal_text(serial);
    label.append(numeral.as_str());
    label
}

/// One live window: its description, and whether it is on screen.
struct WindowEntry {
    handle: WindowHandle,
    visible: bool,
}

/// The state of one live window.
pub struct WindowState {
    pub handle: WindowHandleView,
    pub visible: bool,
}

impl View for WindowEntry {
    type V = WindowState;

    closed spec fn view(&self) -> WindowState {
        WindowState { handle: self.handle@, visible: self.visible }
    }
}

/// The set of live windows. It alone creates, shows, hides and closes them.
pub struct WindowRegistry {
    windows: Vec<WindowEntry>,
    next_serial: u64,
}

/// The state of a [`WindowRegistry`]: the live windows in the order in which
/// they were added, and the least stamp that has not been issued.
pub struct RegistryView {
    pub windows: Seq<WindowState>,
    pub next_serial: nat,
}

impl View for WindowRegistry {
    type V = RegistryView;

    closed spec fn view(&self) -> RegistryView {
        RegistryView {
            windows: Seq::new(self.windows@.len(), |i: int| self.windows@[i]@),
            next_serial: self.next_serial as nat,
        }
    }
}

/// How many of these windows are on screen.
pub open spec fn visible_among(windows: Seq<WindowState>) -> nat
    decreases windows.len(),
{
    if windows.len() == 0 {
        0
    } else {
        visible_among(windows.drop_last()) + if windows.last().visible {
            1nat
        } else {
            0nat
        }
    }
}

impl RegistryView {
    /// No two live windows share an id.
    pub open spec fn well_formed(self) -> bool {
        forall|i: int, j: int|
            0 <= i < j < self.windows.len() ==> (#[trigger] self.windows[i]).handle.id != (
            #[trigger] self.windows[j]).handle.id
    }

    /// Whether a live window has this id.
    pub open spec fn has(self, id: Seq<char>) -> bool {
        exists|i: int| 0 <= i < self.windows.len() && (#[trigger] self.windows[i]).handle.id == id
    }

    /// The place of the window with this id among the live windows.
    pub open spec fn slot(self, id: Seq<char>) -> int {
        choose|i: int| 0 <= i < self.windows.len() && (#[trigger] self.windows[i]).handle.id == id
    }

    /// The state of the window with this id.
    pub open spec fn state(self, id: Seq<char>) -> WindowState {
        self.windows[self.slot(id)]
    }

    /// This state with the window `id` on screen or off it.
    pub open spec fn with_visibility(self, id: Seq<char>, visible: bool) -> RegistryView {
        RegistryView {
            windows: self.windows.update(
                self.slot(id),
                WindowState { handle: self.state(id).handle, visible },
            ),
            ..self
        }
    }

    /// This state without the window `id`.
    pub open spec fn without(self, id: Seq<char>) -> RegistryView {
        RegistryView { windows: self.windows.remove(self.slot(id)), ..self }
    }

    /// This state with one more window, on screen.
    pub open spec fn with_window(self, handle: WindowHandleView) -> RegistryView {
        RegistryView { windows: self.windows.push(WindowState { handle, visible: true }), ..self }
    }

    /// The stamp that a window created at clock reading `now` gets: the
    /// reading itself where it lies above every stamp issued so far and
    /// below the limit, else the least stamp that was not issued.
    pub open spec fn stamp_at(self, now: int) -> nat {
        if self.next_serial < now < STAMP_LIMIT {
            now as nat
        } else {
            self.next_serial
        }
    }

    /// What creating a window at clock reading `now` yields: the description
    /// of the new window, or the reason why none is made.
    pub open spec fn creation(
        self,
        title: Seq<char>,
        target: WindowTargetView,
        size: Size,
        min_size: Size,
        now: int,
    ) -> Result<WindowHandleView, ShellErrorView> {
        let stamp = self.stamp_at(now);
        if stamp >= STAMP_LIMIT {
            Err(ShellErrorView::Exhausted)
        } else if self.has(window_label(stamp)) {
            Err(ShellErrorView::IdInUse(window_label(stamp)))
        } else {
            Ok(WindowHandleView { id: window_label(stamp), title, target, size, min_size })
        }
    }

    /// The state after creating a window at clock reading `now`: with the new
    /// window on screen and its stamp used up, or unchanged where none is made.
    pub open spec fn after_creation(
        self,
        title: Seq<char>,
        target: WindowTargetView,
        size: Size,
        min_size: Size,
        now: int,
    ) -> RegistryView {
        match self.creation(title, target, size, min_size, now) {
            Ok(handle) => RegistryView {
                windows: self.windows.push(WindowState { handle, visible: true }),
                next_serial: self.stamp_at(now) + 1,
            },
            Err(_) => self,
        }
    }

    /// In a well-formed state the place of a live window is the only place
    /// that holds its id.
    pub proof fn lemma_slot_unique(self, id: Seq<char>, i: int)
        requires
            self.well_formed(),
            0 <= i < self.windows.len(),
            self.windows[i].handle.id == id,
        ensures
            self.has(id),
            self.slot(id) == i,
    {
        let j = self.slot(id);
        assert(0 <= j < self.windows.len() && self.windows[j].handle.id == id);
        if i < j {
            assert(self.windows[i].handle.id != self.windows[j].handle.id);
        }
        if j < i {
            assert(self.windows[j].handle.id != self.windows[i].handle.id);
        }
    }
    /// Putting a live window on screen or off it keeps the state well formed
    /// and every description in its place; only that window's visibility
    /// changes.
    pub proof fn lemma_with_visibility(self, id: Seq<char>, visible: bool)
        requires
            self.well_formed(),
            self.has(id),
        ensures
            self.with_visibility(id, visible).well_formed(),
            self.with_visibility(id, visible).windows.len() == self.windows.len(),
            self.with_visibility(id, visible).next_serial == self.next_serial,
            forall|i: int|
                0 <= i < self.windows.len() ==> (#[trigger] self.with_visibility(
                    id,
                    visible,
                ).windows[i]).handle == self.windows[i].handle,
            forall|other: Seq<char>| #[trigger]
                self.with_visibility(id, visible).has(other) == self.has(other),
            self.with_visibility(id, visible).state(id).visible == visible,
            self.with_visibility(id, visible).state(id).handle == self.state(id).handle,
    {
        let r = self.with_visibility(id, visible);
        let at = self.slot(id);
        assert(0 <= at < self.windows.len() && self.windows[at].handle.id == id);
        assert forall|i: int| 0 <= i < self.windows.len() implies (#[trigger] r.windows[i]).handle
            == self.windows[i].handle by {}
        assert forall|i: int, j: int| 0 <= i < j < r.windows.len() implies (
        #[trigger] r.windows[i]).handle.id != (#[trigger] r.windows[j]).handle.id by {
            assert(self.windows[i].handle.id != self.windows[j].handle.id);
        }
        assert forall|other: Seq<char>| #[trigger] r.has(other) == self.has(other) by {
            if self.has(other) {
                let i = self.slot(other);
                assert(r.windows[i].handle.id == other);
            }
            if r.has(other) {
                let i = r.slot(other);
                assert(self.windows[i].handle.id == other);
            }
        }
        assert(r.windows[at].handle.id == id);
        r.lemma_slot_unique(id, at);
    }

    /// Closing a live window keeps the state well formed; the other windows
    /// stay as they are.
    pub proof fn lemma_without(self, id: Seq<char>)
        requires
            self.well_formed(),
            self.has(id),
        ensures
            self.without(id).well_formed(),
            self.without(id).windows.len() == self.windows.len() - 1,
            self.without(id).next_serial == self.next_serial,
            forall|i: int|
                0 <= i < self.without(id).windows.len() ==> self.windows.contains(
                    #[trigger] self.without(id).windows[i],
                ),
            forall|other: Seq<char>| #[trigger]
                self.without(id).has(other) == (self.has(other) && other != id),
    {
        let r = self.without(id);
        let at = self.slot(id);
        assert(0 <= at < self.windows.len() && self.windows[at].handle.id == id);
        assert forall|i: int| 0 <= i < r.windows.len() implies self.windows.contains(
            #[trigger] r.windows[i],
        ) by {
            if i < at {
                assert(r.windows[i] == self.windows[i]);
            } else {
                assert(r.windows[i] == self.windows[i + 1]);
            }
        }
        assert forall|i: int, j: int| 0 <= i < j < r.windows.len() implies (
        #[trigger] r.windows[i]).handle.id != (#[trigger] r.windows[j]).handle.id by {
            let a = if i < at { i } else { i + 1 };
            let b = if j < at { j } else { j + 1 };
            assert(r.windows[i] == self.windows[a]);
            assert(r.windows[j] == self.windows[b]);
            assert(self.windows[a].handle.id != self.windows[b].handle.id);
        }
        assert forall|other: Seq<char>| #[trigger] r.has(other) == (self.has(other) && other
            != id) by {
            if self.has(other) && other != id {
                let i = self.slot(other);
                let k = if i < at { i } else { i - 1 };
                assert(r.windows[k] == self.windows[i]);
            }
            if r.has(other) {
                let k = r.slot(other);
                let i = if k < at { k } else { k + 1 };
                assert(r.windows[k] == self.windows[i]);
                assert(self.windows[i].handle.id == other);
                if other == id {
                    self.lemma_slot_unique(id, i);
                }
            }
        }
    }

    /// A window that is created is new to the state: its id is stamped with a
    /// stamp that was not issued before, and no live window had it. The state
    /// stays well formed, and the windows that were live stay as they are.
    pub proof fn lemma_creation(
        self,
        title: Seq<char>,
        target: WindowTargetView,
        size: Size,
        min_size: Size,
        now: int,
    )
        requires
            self.well_formed(),
        ensures
            self.after_creation(title, target, size, min_size, now).well_formed(),
            self.after_creation(title, target, size, min_size, now).next_serial
                >= self.next_serial,
            match self.creation(title, target, size, min_size, now) {
                Ok(handle) => {
                    let r = self.after_creation(title, target, size, min_size, now);
                    &&& handle.id == window_label(self.stamp_at(now))
                    &&& self.stamp_at(now) >= self.next_serial
                    &&& r.next_serial == self.stamp_at(now) + 1
                    &&& !self.has(handle.id)
                    &&& r.windows == self.windows.push(WindowState { handle, visible: true })
                    &&& forall|other: Seq<char>| #[trigger]
                        r.has(other) == (self.has(other) || other == handle.id)
                },
                Err(_) => self.after_creation(title, target, size, min_size, now) == self,
            },
    {
        let r = self.after_creation(title, target, size, min_size, now);
        match self.creation(title, target, size, min_size, now) {
            Ok(handle) => {
                let last = self.windows.len() as int;
                assert forall|i: int, j: int| 0 <= i < j < r.windows.len() implies (
                #[trigger] r.windows[i]).handle.id != (#[trigger] r.windows[j]).handle.id by {
                    if j < last {
                        assert(self.windows[i].handle.id != self.windows[j].handle.id);
                    } else {
                        assert(r.windows[i] == self.windows[i]);
                    }
                }
                assert forall|other: Seq<char>| #[trigger] r.has(other) == (self.has(other)
                    || other == handle.id) by {
                    if self.has(other) {
                        let i = self.slot(other);
                        assert(r.windows[i].handle.id == other);
                    }
                    if other == handle.id {
                        assert(r.windows[last].handle.id == other);
                    }
                    if r.has(other) {
                        let i = r.slot(other);
                        if i < last {
                            assert(self.windows[i].handle.id == other);
                        }
                    }
                }
            },
            Err(_) => {},
        }
    }
}

impl WindowRegistry {
    /// A registry without windows that has issued no stamp.
    pub fn new() -> (registry: WindowRegistry)
        ensures
            registry@.windows.len() == 0,
            registry@.next_serial == 0,
            registry@.well_formed(),
    {
        WindowRegistry { windows: Vec::new(), next_serial: 0 }
    }

    /// The number of live windows.
    pub fn len(&self) -> (count: usize)
        ensures
            count == self@.windows.len(),
    {
        self.windows.len()
    }

    /// The ids of the live windows, in the order in which they were added.
    pub fn ids(&self) -> (ids: Vec<String>)
        ensures
            ids@.len() == self@.windows.len(),
            forall|i: int|
                0 <= i < ids@.len() ==> (#[trigger] ids@[i])@ == self@.windows[i].handle.id,
    {
        let mut ids: Vec<String> = Vec::new();
        let mut i: usize = 0;
        while i < self.windows.len()
            invariant
                i <= self.windows@.len(),
                ids@.len() == i,
                forall|k: int| 0 <= k < i ==> (#[trigger] ids@[k])@ == self@.windows[k].handle.id,
            decreases self.windows.len() - i,
        {
            ids.push(self.windows[i].handle.id.clone());
            i += 1;
        }
        ids
    }

    /// The number of live windows that are on screen. Where it is 0, the
    /// tray icon alone stands for the running application.
    pub fn visible_count(&self) -> (count: usize)
        ensures
            count == visible_among(self@.windows),
    {
        let mut count: usize = 0;
        let mut i: usize = 0;
        while i < self.windows.len()
            invariant
                i <= self.windows@.len(),
                count == visible_among(self@.windows.take(i as int)),
                count <= i,
            decreases self.windows.len() - i,
        {
            proof {
                let next = self@.windows.take(i + 1);
                assert(next.drop_last() =~= self@.windows.take(i as int));
                assert(next.last() == self@.windows[i as int]);
            }
            if self.windows[i].visible {
                count += 1;
            }
            i += 1;
        }
        assert(self@.windows.take(i as int) =~= self@.windows);
        count
    }

    /// The place of the first live window with this id.
    fn position(&self, id: &str) -> (found: Option<usize>)
        ensures
            match found {
                Some(i) => i < self@.windows.len() && self@.windows[i as int].handle.id == id@,
                None => !self@.has(id@),
            },
    {
        let mut i: usize = 0;
        while i < self.windows.len()
            invariant
                i <= self.windows@.len(),
                forall|k: int| 0 <= k < i ==> (#[trigger] self@.windows[k]).handle.id != id@,
            decreases self.windows.len() - i,
        {
            if same_text(self.windows[i].handle.id.as_str(), id) {
                return Some(i);
            }
            i += 1;
        }
        None
    }

    /// Whether a live window has this id.
    pub fn contains(&self, id: &str) -> (found: bool)
        ensures
            found == self@.has(id@),
    {
        self.position(id).is_some()
    }

    /// Whether the window with this id is on screen; `None` where no live
    /// window has the id.
    pub fn is_visible(&self, id: &str) -> (visible: Option<bool>)
        requires
            self@.well_formed(),
        ensures
            visible == (if self@.has(id@) {
                Some(self@.state(id@).visible)
            } else {
                None
            }),
    {
        match self.position(id) {
            Some(i) => {
                proof {
                    self@.lemma_slot_unique(id@, i as int);
                }
                Some(self.windows[i].visible)
            },
            None => None,
        }
    }

    /// The description of the window with this id.
    pub fn get(&self, id: &str) -> (handle: Option<WindowHandle>)
        requires
            self@.well_formed(),
        ensures
            match handle {
                Some(h) => self@.has(id@) && h@ == self@.state(id@).handle,
                None => !self@.has(id@),
            },
    {
        match self.position(id) {
            Some(i) => {
                proof {
                    self@.lemma_slot_unique(id@, i as int);
                }
                Some(self.windows[i].handle.clone())
            },
            None => None,
        }
    }
    /// Puts the window `id` on screen or takes it off.
    fn set_visibility(&mut self, id: &str, visible: bool) -> (outcome: Result<(), ShellError>)
        requires
            old(self)@.well_formed(),
        ensures
            final(self)@.well_formed(),
            match outcome {
                Ok(()) => old(self)@.has(id@) && final(self)@ == old(self)@.with_visibility(
                    id@,
                    visible,
                ),
                Err(error) => !old(self)@.has(id@) && final(self)@ == old(self)@ && error@
                    == ShellErrorView::NotFound(id@),
            },
    {
        match self.position(id) {
            Some(i) => {
                proof {
                    self@.lemma_slot_unique(id@, i as int);
                }
                self.windows[i].visible = visible;
                assert(final(self)@.windows =~= old(self)@.with_visibility(id@, visible).windows);
                Ok(())
            },
            None => Err(ShellError::NotFound(id.to_owned())),
        }
    }

    /// Puts the window with this id on screen.
    pub fn show_window(&mut self, id: &str) -> (outcome: Result<(), ShellError>)
        requires
            old(self)@.well_formed(),
        ensures
            final(self)@.well_formed(),
            match outcome {
                Ok(()) => old(self)@.has(id@) && final(self)@ == old(self)@.with_visibility(
                    id@,
                    true,
                ),
                Err(error) => !old(self)@.has(id@) && final(self)@ == old(self)@ && error@
                    == ShellErrorView::NotFound(id@),
            },
    {
        self.set_visibility(id, true)
    }

    /// Takes the window with this id off the screen. The window stays live.
    pub fn hide_window(&mut self, id: &str) -> (outcome: Result<(), ShellError>)
        requires
            old(self)@.well_formed(),
        ensures
            final(self)@.well_formed(),
            match outcome {
                Ok(()) => old(self)@.has(id@) && final(self)@ == old(self)@.with_visibility(
                    id@,
                    false,
                ),
                Err(error) => !old(self)@.has(id@) && final(self)@ == old(self)@ && error@
                    == ShellErrorView::NotFound(id@),
            },
    {
        self.set_visibility(id, false)
    }

    /// Checks that the window with this id can be given the input focus.
    /// Focus itself belongs to the windowing system: no state changes here.
    pub fn focus_window(&self, id: &str) -> (outcome: Result<(), ShellError>)
        ensures
            match outcome {
                Ok(()) => self@.has(id@),
                Err(error) => !self@.has(id@) && error@ == ShellErrorView::NotFound(id@),
            },
    {
        match self.position(id) {
            Some(_) => Ok(()),
            None => Err(ShellError::NotFound(id.to_owned())),
        }
    }

    /// Ends the window with this id: it is live no longer.
    pub fn close_window(&mut self, id: &str) -> (outcome: Result<(), ShellError>)
        requires
            old(self)@.well_formed(),
        ensures
            final(self)@.well_formed(),
            match outcome {
                Ok(()) => old(self)@.has(id@) && final(self)@ == old(self)@.without(id@),
                Err(error) => !old(self)@.has(id@) && final(self)@ == old(self)@ && error@
                    == ShellErrorView::NotFound(id@),
            },
    {
        match self.position(id) {
            Some(i) => {
                proof {
                    self@.lemma_slot_unique(id@, i as int);
                }
                let _ = self.windows.remove(i);
                assert(final(self)@.windows =~= old(self)@.without(id@).windows);
                Ok(())
            },
            None => Err(ShellError::NotFound(id.to_owned())),
        }
    }

    /// Adds a window under the id that its description carries, on screen.
    /// An id that a live window has is refused.
    pub fn register(&mut self, handle: WindowHandle) -> (outcome: Result<(), ShellError>)
        requires
            old(self)@.well_formed(),
        ensures
            final(self)@.well_formed(),
            match outcome {
                Ok(()) => !old(self)@.has(handle@.id) && final(self)@ == old(self)@.with_window(
                    handle@,
                ),
                Err(error) => old(self)@.has(handle@.id) && final(self)@ == old(self)@ && error@
                    == ShellErrorView::IdInUse(handle@.id),
            },
    {
        if self.contains(handle.id.as_str()) {
            return Err(ShellError::IdInUse(handle.id));
        }
        self.windows.push(WindowEntry { handle, visible: true });
        assert(final(self)@.windows =~= old(self)@.with_window(handle@).windows);
        Ok(())
    }
    /// Creates a window at clock reading `now`, on screen, under a fresh id:
    /// `window_` and a stamp. The stamp is the reading itself where that lies
    /// above every stamp issued so far and below [`STAMP_LIMIT`], else the
    /// least stamp not yet issued. So the clock never decides whether a
    /// window is made: stamps are used up only once the limit was issued.
    pub fn create(
        &mut self,
        title: String,
        target: WindowTarget,
        size: Size,
        min_size: Size,
        now: i64,
    ) -> (outcome: Result<WindowHandle, ShellError>)
        requires
            old(self)@.well_formed(),
        ensures
            final(self)@.well_formed(),
            final(self)@ == old(self)@.after_creation(title@, target@, size, min_size, now as int),
            match outcome {
                Ok(handle) => old(self)@.creation(title@, target@, size, min_size, now as int)
                    == Ok::<WindowHandleView, ShellErrorView>(handle@),
                Err(error) => old(self)@.creation(title@, target@, size, min_size, now as int)
                    == Err::<WindowHandleView, ShellErrorView>(error@),
            },
    {
        let stamp: u64 = if now > 0 && now as u64 > self.next_serial && (now as u64)
            < STAMP_LIMIT {
            now as u64
        } else {
            self.next_serial
        };
        assert(stamp == old(self)@.stamp_at(now as int));
        if stamp >= STAMP_LIMIT {
            return Err(ShellError::Exhausted);
        }
        let id = window_label_text(stamp);
        if self.contains(id.as_str()) {
            return Err(ShellError::IdInUse(id));
        }
        let handle = WindowHandle { id, title, target, size, min_size };
        self.windows.push(WindowEntry { handle: handle.clone(), visible: true });
        self.next_serial = stamp + 1;
        assert(final(self)@.windows =~= old(self)@.windows.push(
            WindowState { handle: handle@, visible: true },
        ));
        Ok(handle)
    }
}

} // verus!
