//! Keyboard focus, and the handles that outlive a rendering.
//!
//! A [`Window`] keeps one [`FocusHandle`] for each identity that ever asked
//! for one, knows which handle holds keyboard focus, and records every focus
//! request in the order in which it was made.

use vstd::prelude::*;
use crate::identity::{ElementId, ElementIdView};

verus! {

/// Names one focus target of a window.
#[derive(Clone, Copy, Debug, PartialEq, Eq, Structural)]
pub struct FocusId {
    pub index: usize,
}

/// A reference to a focus target: cheap to copy, and equal to every other
/// handle for the same target.
#[derive(Clone, Copy, Debug, PartialEq, Eq, Structural)]
pub struct FocusHandle {
    pub id: FocusId,
    /// Whether sequential keyboard navigation stops here.
    pub tab_stop: bool,
}

/// What the first resolution of an identity does to the handle it makes.
#[derive(Clone, Copy, Debug, PartialEq, Eq, Structural)]
pub struct Creation {
    /// Make the handle a tab stop.
    pub tab_stop: bool,
    /// Ask for focus as soon as the handle exists.
    pub request_focus: bool,
}

/// How a button's handle is created: always as a tab stop, and with a focus
/// request exactly when the button asks for focus of its own accord.
pub open spec fn spec_creation(auto_focus: bool) -> Creation {
    Creation { tab_stop: true, request_focus: auto_focus }
}

/// Decides how a button's handle is created.
#[verifier::when_used_as_spec(spec_creation)]
pub fn creation(auto_focus: bool) -> (plan: Creation)
    ensures
        plan == spec_creation(auto_focus),
{
    Creation { tab_stop: true, request_focus: auto_focus }
}

/// What a [`Window`] holds, as mathematics.
#[verifier::ext_equal]
pub struct WindowView {
    /// The handle kept for each identity.
    pub handles: Map<ElementIdView, FocusHandle>,
    /// How many handles were ever created.
    pub created: nat,
    /// The target that holds keyboard focus, if any does.
    pub focused: Option<FocusId>,
    /// Every focus request made so far, oldest first.
    pub focus_requests: Seq<FocusId>,
    /// Whether default handling was suppressed for the event being delivered.
    pub default_prevented: bool,
}

impl WindowView {
    /// A window that has seen nothing yet.
    pub open spec fn empty() -> WindowView {
        WindowView {
            handles: Map::empty(),
            created: 0,
            focused: None,
            focus_requests: Seq::empty(),
            default_prevented: false,
        }
    }

    /// The window after a focus request for `id`.
    pub open spec fn focus(self, id: FocusId) -> WindowView {
        WindowView { focused: Some(id), focus_requests: self.focus_requests.push(id), ..self }
    }

    /// The window after default handling was suppressed.
    pub open spec fn prevent_default(self) -> WindowView {
        WindowView { default_prevented: true, ..self }
    }

    /// The window as the delivery of the next event finds it.
    pub open spec fn begin_event(self) -> WindowView {
        WindowView { default_prevented: false, ..self }
    }

    /// The handle that the next creation gives out: its id is one that no
    /// earlier handle has.
    pub open spec fn next_handle(self, tab_stop: bool) -> FocusHandle {
        FocusHandle { id: FocusId { index: self.created as usize }, tab_stop }
    }

    /// Whether the window can have come about: every handle it keeps is a
    /// tab stop and was counted when it was created, and no two identities
    /// share a handle.
    pub open spec fn wf(self) -> bool {
        &&& forall|k: ElementIdView| #[trigger]
            self.handles.contains_key(k) ==> self.handles[k].tab_stop && self.handles[k].id.index
                < self.created
        &&& forall|j: ElementIdView, k: ElementIdView|
            self.handles.contains_key(j) && self.handles.contains_key(k) && j != k
                ==> self.handles[j].id != self.handles[k].id
    }

    /// Resolves the handle of `id`. A known identity gets its handle back and
    /// the window stays as it is, whatever `auto_focus` says. An unknown one
    /// gets a new handle, which is kept, and which takes focus at once if
    /// `auto_focus` is set.
    pub open spec fn resolve(self, id: ElementIdView, auto_focus: bool) -> (WindowView, FocusHandle) {
        if self.handles.contains_key(id) {
            (self, self.handles[id])
        } else {
            let plan = spec_creation(auto_focus);
            let handle = self.next_handle(plan.tab_stop);
            let kept = WindowView {
                handles: self.handles.insert(id, handle),
                created: self.created + 1,
                ..self
            };
            (if plan.request_focus { kept.focus(handle.id) } else { kept }, handle)
        }
    }
}

struct Entry {
    key: ElementId,
    handle: FocusHandle,
}

/// The part of a window that a button touches.
pub struct Window {
    entries: Vec<Entry>,
    focused: Option<FocusId>,
    focus_requests: Vec<FocusId>,
    default_prevented: bool,
}

impl View for Window {
    type V = WindowView;

    closed spec fn view(&self) -> WindowView {
        WindowView {
            handles: kept(self.entries@),
            created: self.entries.len() as nat,
            focused: self.focused,
            focus_requests: self.focus_requests@,
            default_prevented: self.default_prevented,
        }
    }
}

spec fn at(entries: Seq<Entry>, i: int, k: ElementIdView) -> bool {
    0 <= i < entries.len() && entries[i].key@ == k
}

spec fn slot(entries: Seq<Entry>, k: ElementIdView) -> int {
    choose|i: int| at(entries, i, k)
}

spec fn kept(entries: Seq<Entry>) -> Map<ElementIdView, FocusHandle> {
    Map::new(
        |k: ElementIdView| exists|i: int| at(entries, i, k),
        |k: ElementIdView| entries[slot(entries, k)].handle,
    )
}

spec fn distinct(entries: Seq<Entry>) -> bool {
    forall|i: int, j: int| 0 <= i < j < entries.len() ==> entries[i].key@ != entries[j].key@
}

spec fn numbered(entries: Seq<Entry>) -> bool {
    forall|i: int|
        0 <= i < entries.len() ==> #[trigger] entries[i].handle == (FocusHandle {
            id: FocusId { index: i as usize },
            tab_stop: true,
        })
}

proof fn lemma_kept_at(entries: Seq<Entry>, i: int)
    requires
        distinct(entries),
        0 <= i < entries.len(),
    ensures
        kept(entries).contains_key(entries[i].key@),
        kept(entries)[entries[i].key@] == entries[i].handle,
{
    let k = entries[i].key@;
    assert(at(entries, i, k));
    let j = slot(entries, k);
    assert(at(entries, j, k));
    assert(j == i);
}

proof fn lemma_kept_push(entries: Seq<Entry>, entry: Entry)
    requires
        distinct(entries),
        !kept(entries).contains_key(entry.key@),
    ensures
        distinct(entries.push(entry)),
        kept(entries.push(entry)) =~= kept(entries).insert(entry.key@, entry.handle),
{
    let grown = entries.push(entry);
    assert forall|i: int, j: int| 0 <= i < j < grown.len() implies grown[i].key@
        != grown[j].key@ by {
        if j == entries.len() {
            assert(at(entries, i, entry.key@) ==> kept(entries).contains_key(entry.key@));
        }
    }
    assert forall|k: ElementIdView| #[trigger]
        kept(grown).contains_key(k) == kept(entries).insert(
            entry.key@,
            entry.handle,
        ).contains_key(k) by {
        if kept(grown).contains_key(k) {
            let i = choose|i: int| at(grown, i, k);
            assert(at(grown, i, k));
            if i < entries.len() {
                assert(at(entries, i, k));
            }
        }
        if kept(entries).contains_key(k) {
            let i = choose|i: int| at(entries, i, k);
            assert(at(grown, i, k));
        }
        if k == entry.key@ {
            assert(at(grown, entries.len() as int, k));
        }
    }
    assert forall|k: ElementIdView| #[trigger] kept(grown).contains_key(k) implies kept(grown)[k]
        == kept(entries).insert(entry.key@, entry.handle)[k] by {
        if k == entry.key@ {
            lemma_kept_at(grown, entries.len() as int);
        } else {
            let i = choose|i: int| at(entries, i, k);
            assert(at(entries, i, k));
            lemma_kept_at(entries, i);
            lemma_kept_at(grown, i);
        }
    }
}

impl Window {
    /// Whether the window is one that [`Window::new`] and the methods can
    /// have made: no identity is kept twice, and the handles are numbered in
    /// the order of their creation.
    pub closed spec fn wf(self) -> bool {
        distinct(self.entries@) && numbered(self.entries@)
    }

    /// A well-formed window holds a well-formed view.
    pub proof fn lemma_view_wf(self)
        requires
            self.wf(),
        ensures
            self@.wf(),
    {
        let entries = self.entries@;
        assert forall|k: ElementIdView| #[trigger] kept(entries).contains_key(k) implies kept(
            entries,
        )[k].tab_stop && kept(entries)[k].id.index < entries.len() by {
            let i = slot(entries, k);
            assert(at(entries, i, k));
        }
        assert forall|j: ElementIdView, k: ElementIdView|
            kept(entries).contains_key(j) && kept(entries).contains_key(k) && j != k implies kept(
            entries,
        )[j].id != kept(entries)[k].id by {
            let a = slot(entries, j);
            let b = slot(entries, k);
            assert(at(entries, a, j));
            assert(at(entries, b, k));
            assert(entries.len() == self.entries.len());
            assert(entries[a].handle.id.index == a);
            assert(entries[b].handle.id.index == b);
        }
    }

    /// A window that has seen nothing yet.
    pub fn new() -> (window: Window)
        ensures
            window.wf(),
            window@ =~= WindowView::empty(),
    {
        Window {
            entries: Vec::new(),
            focused: None,
            focus_requests: Vec::new(),
            default_prevented: false,
        }
    }

    /// Looks up the handle kept for `id`, without creating one.
    pub fn handle_of(&self, id: &ElementId) -> (found: Option<FocusHandle>)
        requires
            self.wf(),
        ensures
            found == (if self@.handles.contains_key(id@) {
                Some(self@.handles[id@])
            } else {
                None
            }),
    {
        let mut i: usize = 0;
        while i < self.entries.len()
            invariant
                self.wf(),
                i <= self.entries.len(),
                forall|j: int| 0 <= j < i ==> self.entries[j].key@ != id@,
            decreases self.entries.len() - i,
        {
            if self.entries[i].key.same(id) {
                proof {
                    lemma_kept_at(self.entries@, i as int);
                }
                return Some(self.entries[i].handle);
            }
            i += 1;
        }
        assert(!kept(self.entries@).contains_key(id@)) by {
            if kept(self.entries@).contains_key(id@) {
                let j = slot(self.entries@, id@);
                assert(at(self.entries@, j, id@));
            }
        }
        None
    }

    /// Resolves the handle of `id`: the one kept for it, or, the first time,
    /// a new one, made as [`creation`] says.
    pub fn resolve(&mut self, id: &ElementId, auto_focus: bool) -> (handle: FocusHandle)
        requires
            old(self).wf(),
        ensures
            final(self).wf(),
            final(self)@ =~= old(self)@.resolve(id@, auto_focus).0,
            handle == old(self)@.resolve(id@, auto_focus).1,
    {
        match self.handle_of(id) {
            Some(handle) => handle,
            None => {
                let plan = creation(auto_focus);
                let handle = FocusHandle {
                    id: FocusId { index: self.entries.len() },
                    tab_stop: plan.tab_stop,
                };
                let entry = Entry { key: id.clone(), handle };
                proof {
                    lemma_kept_push(self.entries@, entry);
                }
                self.entries.push(entry);
                if plan.request_focus {
                    self.focused = Some(handle.id);
                    self.focus_requests.push(handle.id);
                }
                handle
            },
        }
    }

    /// The target that holds keyboard focus, if any does.
    pub fn focused(&self) -> (holder: Option<FocusId>)
        ensures
            holder == self@.focused,
    {
        self.focused
    }

    /// Every focus request made so far, oldest first.
    pub fn focus_requests(&self) -> (requests: &Vec<FocusId>)
        ensures
            requests@ == self@.focus_requests,
    {
        &self.focus_requests
    }

    /// Moves keyboard focus to `handle`, and records the request.
    pub fn focus(&mut self, handle: &FocusHandle)
        requires
            old(self).wf(),
        ensures
            final(self).wf(),
            final(self)@ =~= old(self)@.focus(handle.id),
    {
        self.focused = Some(handle.id);
        self.focus_requests.push(handle.id);
    }

    /// Suppresses default handling for the event being delivered.
    pub fn prevent_default(&mut self)
        requires
            old(self).wf(),
        ensures
            final(self).wf(),
            final(self)@ =~= old(self)@.prevent_default(),
    {
        self.default_prevented = true;
    }

    /// Whether default handling was suppressed for the event being delivered.
    pub fn default_prevented(&self) -> (suppressed: bool)
        ensures
            suppressed == self@.default_prevented,
    {
        self.default_prevented
    }

    /// Gets the window ready for the next event: nothing is suppressed yet.
    pub fn begin_event(&mut self)
        requires
            old(self).wf(),
        ensures
            final(self).wf(),
            final(self)@ =~= old(self)@.begin_event(),
    {
        self.default_prevented = false;
    }
}

impl FocusHandle {
    /// Whether the target of this handle holds keyboard focus in `window`.
    pub open spec fn spec_is_focused(&self, window: &Window) -> bool {
        window@.focused == Some(self.id)
    }

    /// Tells whether the target of this handle holds keyboard focus.
    #[verifier::when_used_as_spec(spec_is_focused)]
    pub fn is_focused(&self, window: &Window) -> (yes: bool)
        ensures
            yes == (window@.focused == Some(self.id)),
    {
        match window.focused() {
            Some(holder) => holder.index == self.id.index,
            None => false,
        }
    }

    /// Moves keyboard focus to the target of this handle.
    pub fn focus(&self, window: &mut Window)
        requires
            old(window).wf(),
        ensures
            final(window).wf(),
            final(window)@ =~= old(window)@.focus(self.id),
    {
        window.focus(self)
    }
}

} // verus!
