//! The layout model: which windows are mapped, where, in which stacking
//! order, and where the outputs sit in the global coordinate space.
//!
//! Elements are kept bottom to top: the last element is the topmost one.
use vstd::prelude::*;
use crate::geometry::{FixedPoint, Point, Rectangle, Size};

verus! {

/// The role state of a toplevel, as last configured or as pending.
#[derive(Clone, Copy, Debug)]
pub struct ToplevelState {
    pub fullscreen: bool,
    pub maximized: bool,
    pub resizing: bool,
    pub activated: bool,
    /// The size the compositor asks for; `None` lets the client choose.
    pub size: Option<Size>,
}

impl ToplevelState {
    pub fn new() -> (r: ToplevelState)
        ensures
            r == plain_state(),
    {
        ToplevelState {
            fullscreen: false,
            maximized: false,
            resizing: false,
            activated: false,
            size: None,
        }
    }
}

/// One client toplevel surface with its role state.
#[derive(Clone, Copy, Debug)]
pub struct Window {
    /// Handle of the window, unique among mapped windows.
    pub id: u32,
    /// Handle of the client that owns the surface.
    pub client: u32,
    /// Size of the window's geometry as last committed.
    pub size: Size,
    /// False once the client has destroyed the surface.
    pub alive: bool,
    /// Capabilities the toplevel was offered.
    pub can_fullscreen: bool,
    pub can_maximize: bool,
    /// State to be sent with the next configure.
    pub pending: ToplevelState,
    /// State the client has acknowledged.
    pub current: ToplevelState,
    pub initial_configure_sent: bool,
}

impl Window {
    /// A freshly created toplevel of `client`, with the given capabilities.
    pub fn new(id: u32, client: u32, can_fullscreen: bool, can_maximize: bool) -> (r: Window)
        ensures
            r == fresh_window(id, client, can_fullscreen, can_maximize),
    {
        Window {
            id,
            client,
            size: Size { w: 0, h: 0 },
            alive: true,
            can_fullscreen,
            can_maximize,
            pending: ToplevelState::new(),
            current: ToplevelState::new(),
            initial_configure_sent: false,
        }
    }
}

pub open spec fn plain_state() -> ToplevelState {
    ToplevelState { fullscreen: false, maximized: false, resizing: false, activated: false, size: None }
}

/// A toplevel as created: empty, alive, never configured.
pub open spec fn fresh_window(id: u32, client: u32, can_fullscreen: bool, can_maximize: bool) -> Window {
    Window {
        id,
        client,
        size: Size { w: 0, h: 0 },
        alive: true,
        can_fullscreen,
        can_maximize,
        pending: plain_state(),
        current: plain_state(),
        initial_configure_sent: false,
    }
}

/// A mapped window and the location of its top-left corner.
#[derive(Clone, Copy, Debug)]
pub struct Element {
    pub window: Window,
    pub loc: Point,
}

impl Element {
    pub open spec fn geometry(self) -> Rectangle {
        Rectangle { loc: self.loc, size: self.window.size }
    }

    pub open spec fn with_activated(self, b: bool) -> Element {
        Element {
            window: Window {
                pending: ToplevelState { activated: b, ..self.window.pending },
                ..self.window
            },
            ..self
        }
    }
}

/// An output mapped into the space.
#[derive(Clone, Copy, Debug)]
pub struct OutputInfo {
    pub id: u32,
    pub geometry: Rectangle,
}

/// Elements in stacking order (bottom first) and outputs.
pub struct SpaceView {
    pub elements: Seq<Element>,
    pub outputs: Seq<OutputInfo>,
}

pub open spec fn ids_unique(es: Seq<Element>) -> bool {
    forall|i: int, j: int|
        0 <= i < es.len() && 0 <= j < es.len() && #[trigger] es[i].window.id
            == #[trigger] es[j].window.id ==> i == j
}

pub open spec fn output_ids_unique(os: Seq<OutputInfo>) -> bool {
    forall|i: int, j: int|
        0 <= i < os.len() && 0 <= j < os.len() && #[trigger] os[i].id == #[trigger] os[j].id
            ==> i == j
}

pub open spec fn elements_wf(es: Seq<Element>) -> bool {
    &&& ids_unique(es)
    &&& forall|i: int| 0 <= i < es.len() ==> (#[trigger] es[i]).window.size.valid()
}

impl SpaceView {
    pub open spec fn wf(self) -> bool {
        &&& elements_wf(self.elements)
        &&& output_ids_unique(self.outputs)
        &&& forall|i: int| 0 <= i < self.outputs.len() ==> (#[trigger] self.outputs[i]).geometry.valid()
    }
}

/// Index of the mapped window `id`, if any.
pub open spec fn find(es: Seq<Element>, id: u32) -> Option<int> {
    if exists|i: int| 0 <= i < es.len() && es[i].window.id == id {
        Some(choose|i: int| 0 <= i < es.len() && es[i].window.id == id)
    } else {
        None
    }
}

/// Index of the output `id`, if any.
pub open spec fn find_output(os: Seq<OutputInfo>, id: u32) -> Option<int> {
    if exists|i: int| 0 <= i < os.len() && os[i].id == id {
        Some(choose|i: int| 0 <= i < os.len() && os[i].id == id)
    } else {
        None
    }
}

/// Every window's activation flag set, true for `target` alone.
pub open spec fn with_activation(es: Seq<Element>, target: Option<u32>) -> Seq<Element> {
    Seq::new(es.len(), |k: int| es[k].with_activated(target == Some(es[k].window.id)))
}

/// The stack after mapping `w` at `loc`: a new window goes on top; a mapped
/// one moves to `loc` and keeps its slot unless `activate` raises it.
pub open spec fn mapped(es: Seq<Element>, w: Window, loc: Point, activate: bool) -> Seq<Element> {
    let e = Element { window: w, loc };
    let placed = match find(es, w.id) {
        Some(i) => if activate {
            es.remove(i).push(e)
        } else {
            es.update(i, e)
        },
        None => es.push(e),
    };
    if activate {
        with_activation(placed, Some(w.id))
    } else {
        placed
    }
}

/// The stack after raising window `id` to the top; unchanged if it is not mapped.
pub open spec fn raised(es: Seq<Element>, id: u32, activate: bool) -> Seq<Element> {
    match find(es, id) {
        Some(i) => {
            let placed = es.remove(i).push(es[i]);
            if activate {
                with_activation(placed, Some(id))
            } else {
                placed
            }
        },
        None => es,
    }
}

/// Index of the topmost element whose geometry holds `p`.
pub open spec fn top_hit(es: Seq<Element>, p: FixedPoint) -> Option<int>
    decreases es.len(),
{
    if es.len() == 0 {
        None
    } else if es.last().geometry().holds(p) {
        Some(es.len() - 1)
    } else {
        top_hit(es.drop_last(), p)
    }
}

/// The elements drawn on an output of geometry `out`, topmost first.
pub open spec fn render_list(es: Seq<Element>, out: Rectangle) -> Seq<Element>
    decreases es.len(),
{
    if es.len() == 0 {
        Seq::empty()
    } else {
        let rest = render_list(es.drop_last(), out);
        if es.last().geometry().meets(out) {
            seq![es.last()] + rest
        } else {
            rest
        }
    }
}

/// The first element of `rs` whose geometry holds `p`.
pub open spec fn first_hit(rs: Seq<Element>, p: FixedPoint) -> Option<Element>
    decreases rs.len(),
{
    if rs.len() == 0 {
        None
    } else if rs[0].geometry().holds(p) {
        Some(rs[0])
    } else {
        first_hit(rs.drop_first(), p)
    }
}

/// The elements whose surface is still alive, in the same order.
pub open spec fn alive_only(es: Seq<Element>) -> Seq<Element>
    decreases es.len(),
{
    if es.len() == 0 {
        Seq::empty()
    } else {
        let rest = alive_only(es.drop_last());
        if es.last().window.alive {
            rest.push(es.last())
        } else {
            rest
        }
    }
}

/// Ids of the outputs whose geometry overlaps `r`, in mapping order.
pub open spec fn meeting_outputs(os: Seq<OutputInfo>, r: Rectangle) -> Seq<u32>
    decreases os.len(),
{
    if os.len() == 0 {
        Seq::empty()
    } else {
        let rest = meeting_outputs(os.drop_last(), r);
        if os.last().geometry.meets(r) {
            rest.push(os.last().id)
        } else {
            rest
        }
    }
}

/// The window `id` of the stack, if mapped.
pub open spec fn window_of(es: Seq<Element>, id: u32) -> Option<Window> {
    match find(es, id) {
        Some(i) => Some(es[i].window),
        None => None,
    }
}

/// The geometry of window `id`, if mapped.
pub open spec fn geometry_of(es: Seq<Element>, id: u32) -> Option<Rectangle> {
    match find(es, id) {
        Some(i) => Some(es[i].geometry()),
        None => None,
    }
}

/// In a stack of unique ids, the window at slot `i` is found at `i`.
pub proof fn lemma_find_at(es: Seq<Element>, i: int)
    requires
        ids_unique(es),
        0 <= i < es.len(),
    ensures
        find(es, es[i].window.id) == Some(i),
{
    let id = es[i].window.id;
    let c = choose|k: int| 0 <= k < es.len() && es[k].window.id == id;
    assert(es[c].window.id == es[i].window.id);
}

/// Among outputs of unique ids, the output at slot `i` is found at `i`.
pub proof fn lemma_find_output_at(os: Seq<OutputInfo>, i: int)
    requires
        output_ids_unique(os),
        0 <= i < os.len(),
    ensures
        find_output(os, os[i].id) == Some(i),
{
    let id = os[i].id;
    let c = choose|k: int| 0 <= k < os.len() && os[k].id == id;
    assert(os[c].id == os[i].id);
}

proof fn lemma_place_wf(es: Seq<Element>, e: Element, activate: bool)
    requires
        elements_wf(es),
        e.window.size.valid(),
    ensures
        find(es, e.window.id) matches Some(i) ==> elements_wf(es.remove(i).push(e)) && elements_wf(
            es.update(i, e),
        ),
        find(es, e.window.id) is None ==> elements_wf(es.push(e)),
{
    let id = e.window.id;
    match find(es, id) {
        Some(i) => {
            let a = es.remove(i).push(e);
            assert forall|x: int, y: int|
                0 <= x < a.len() && 0 <= y < a.len() && #[trigger] a[x].window.id
                    == #[trigger] a[y].window.id implies x == y by {
                let ox = if x < i { x } else if x < a.len() - 1 { x + 1 } else { i };
                let oy = if y < i { y } else if y < a.len() - 1 { y + 1 } else { i };
                assert(es[ox].window.id == es[oy].window.id);
            }
            assert forall|x: int| 0 <= x < a.len() implies (#[trigger] a[x]).window.size.valid() by {
                if x < i {
                    assert(a[x] == es[x]);
                } else if x < a.len() - 1 {
                    assert(a[x] == es[x + 1]);
                }
            }
            let b = es.update(i, e);
            assert forall|x: int, y: int|
                0 <= x < b.len() && 0 <= y < b.len() && #[trigger] b[x].window.id
                    == #[trigger] b[y].window.id implies x == y by {
                assert(es[x].window.id == es[y].window.id);
            }
            assert forall|x: int| 0 <= x < b.len() implies (#[trigger] b[x]).window.size.valid() by {
                if x != i {
                    assert(b[x] == es[x]);
                }
            }
        },
        None => {
            let a = es.push(e);
            assert forall|x: int, y: int|
                0 <= x < a.len() && 0 <= y < a.len() && #[trigger] a[x].window.id
                    == #[trigger] a[y].window.id implies x == y by {
                if x < es.len() && y < es.len() {
                    assert(es[x].window.id == es[y].window.id);
                } else if x < es.len() {
                    assert(es[x].window.id == id);
                } else if y < es.len() {
                    assert(es[y].window.id == id);
                }
            }
            assert forall|x: int| 0 <= x < a.len() implies (#[trigger] a[x]).window.size.valid() by {
                if x < es.len() {
                    assert(a[x] == es[x]);
                }
            }
        },
    }
}

/// Hit-testing picks the topmost window under the point: the element found
/// holds the point and no element above it does; when nothing is found, no
/// element holds the point.
pub proof fn lemma_hit_is_topmost(es: Seq<Element>, p: FixedPoint)
    ensures
        top_hit(es, p) matches Some(i) ==> {
            &&& 0 <= i < es.len()
            &&& es[i].geometry().holds(p)
            &&& forall|j: int| i < j < es.len() ==> !(#[trigger] es[j]).geometry().holds(p)
        },
        top_hit(es, p) is None ==> forall|j: int|
            0 <= j < es.len() ==> !(#[trigger] es[j]).geometry().holds(p),
    decreases es.len(),
{
    if es.len() > 0 {
        assert(es[es.len() - 1] == es.last());
        if !es.last().geometry().holds(p) {
            let d = es.drop_last();
            lemma_hit_is_topmost(d, p);
            assert(top_hit(es, p) == top_hit(d, p));
            assert forall|j: int| 0 <= j < es.len() - 1 implies es[j] == #[trigger] d[j] by {}
            match top_hit(d, p) {
                Some(i) => {
                    assert forall|j: int| i < j < es.len() implies !(#[trigger] es[j]).geometry().holds(p) by {
                        if j < es.len() - 1 {
                            assert(es[j] == d[j]);
                        }
                    }
                },
                None => {
                    assert forall|j: int| 0 <= j < es.len() implies !(#[trigger] es[j]).geometry().holds(p) by {
                        if j < es.len() - 1 {
                            assert(es[j] == d[j]);
                        }
                    }
                },
            }
        }
    }
}

/// What you see is what you click: on a point of the output, the first
/// window in drawing order (topmost first) that holds the point is the one
/// that hit-testing finds.
pub proof fn lemma_hit_matches_render_order(es: Seq<Element>, out: Rectangle, p: FixedPoint)
    requires
        out.holds(p),
    ensures
        first_hit(render_list(es, out), p) == (match top_hit(es, p) {
            Some(i) => Some(es[i]),
            None => None,
        }),
    decreases es.len(),
{
    if es.len() > 0 {
        let rest = render_list(es.drop_last(), out);
        lemma_hit_matches_render_order(es.drop_last(), out, p);
        if es.last().geometry().meets(out) {
            let rs = seq![es.last()] + rest;
            assert(rs[0] == es.last());
            assert(rs.drop_first() =~= rest);
        }
        if !es.last().geometry().holds(p) {
            let d = es.drop_last();
            match top_hit(d, p) {
                Some(i) => {
                    lemma_hit_is_topmost(d, p);
                    assert(d[i] == es[i]);
                },
                None => {},
            }
        }
    }
}

/// A window mapped with `activate`, or mapped for the first time, is on top
/// of the stack at the location asked for, so every point of its geometry
/// hit-tests to it.
pub proof fn lemma_mapped_on_top(es: Seq<Element>, w: Window, loc: Point, activate: bool, p: FixedPoint)
    requires
        elements_wf(es),
        activate || find(es, w.id) is None,
        (Rectangle { loc, size: w.size }).holds(p),
    ensures
        ({
            let r = mapped(es, w, loc, activate);
            &&& r.len() > 0
            &&& r.last().window.id == w.id
            &&& r.last().loc == loc
            &&& top_hit(r, p) == Some(r.len() - 1)
        }),
{
    let e = Element { window: w, loc };
    let placed = match find(es, w.id) {
        Some(i) => if activate {
            es.remove(i).push(e)
        } else {
            es.update(i, e)
        },
        None => es.push(e),
    };
    assert(placed.last() == e);
    let r = mapped(es, w, loc, activate);
    assert(r.last().geometry() == e.geometry());
}

/// Setting activation flags keeps the stack well formed.
pub proof fn lemma_activation_wf(es: Seq<Element>, target: Option<u32>)
    requires
        elements_wf(es),
    ensures
        elements_wf(with_activation(es, target)),
{
    let a = with_activation(es, target);
    assert forall|i: int, j: int|
        0 <= i < a.len() && 0 <= j < a.len() && #[trigger] a[i].window.id == #[trigger] a[j].window.id
        implies i == j by {
        assert(es[i].window.id == es[j].window.id);
    }
    assert forall|i: int| 0 <= i < a.len() implies (#[trigger] a[i]).window.size.valid() by {
        assert(es[i].window.size.valid());
    }
}

/// Mapping keeps the stack well formed, and leaves the window found at the
/// location asked for.
pub proof fn lemma_mapped_wf(es: Seq<Element>, w: Window, loc: Point, activate: bool)
    requires
        elements_wf(es),
        w.size.valid(),
    ensures
        elements_wf(mapped(es, w, loc, activate)),
        find(mapped(es, w, loc, activate), w.id) matches Some(k) && mapped(es, w, loc, activate)[k].loc == loc,
{
    let e = Element { window: w, loc };
    lemma_place_wf(es, e, activate);
    let placed = match find(es, w.id) {
        Some(i) => if activate {
            es.remove(i).push(e)
        } else {
            es.update(i, e)
        },
        None => es.push(e),
    };
    let k = match find(es, w.id) {
        Some(i) => if activate { es.len() - 1 } else { i },
        None => es.len() as int,
    };
    assert(placed[k] == e);
    if activate {
        lemma_activation_wf(placed, Some(w.id));
    }
    let r = mapped(es, w, loc, activate);
    assert(r[k].window.id == w.id && r[k].loc == loc);
    lemma_find_at(r, k);
}

/// Mapping is idempotent: mapping a window a second time with the same
/// arguments leaves the stack as the first call left it.
pub proof fn lemma_map_idempotent(es: Seq<Element>, w: Window, loc: Point, activate: bool)
    requires
        elements_wf(es),
        w.size.valid(),
    ensures
        mapped(mapped(es, w, loc, activate), w, loc, activate) == mapped(es, w, loc, activate),
{
    let e = Element { window: w, loc };
    let r1 = mapped(es, w, loc, activate);
    lemma_mapped_wf(es, w, loc, activate);
    let k = find(r1, w.id).unwrap();
    let placed = match find(es, w.id) {
        Some(i) => if activate {
            es.remove(i).push(e)
        } else {
            es.update(i, e)
        },
        None => es.push(e),
    };
    if activate {
        assert(placed.last() == e);
        assert(r1[placed.len() - 1].window.id == w.id);
        lemma_activation_wf(placed, Some(w.id));
        lemma_find_at(r1, placed.len() - 1);
        let placed2 = r1.remove(k).push(e);
        let r2 = with_activation(placed2, Some(w.id));
        assert forall|j: int| 0 <= j < r1.len() implies r2[j] == r1[j] by {
            if j < r1.len() - 1 {
                assert(placed2[j] == r1[j]);
            }
        }
        assert(r2 =~= r1);
    } else {
        let k0 = match find(es, w.id) {
            Some(i) => i,
            None => es.len() as int,
        };
        assert(r1[k0] == e);
        lemma_find_at(r1, k0);
        assert(r1.update(k, e) =~= r1);
    }
}

pub struct Space {
    elements: Vec<Element>,
    outputs: Vec<OutputInfo>,
}

impl View for Space {
    type V = SpaceView;

    closed spec fn view(&self) -> SpaceView {
        SpaceView { elements: self.elements@, outputs: self.outputs@ }
    }
}

impl Space {
    pub open spec fn wf(&self) -> bool {
        self@.wf()
    }

    /// An empty space: no window, no output.
    pub fn new() -> (r: Space)
        ensures
            r@.elements == Seq::<Element>::empty(),
            r@.outputs == Seq::<OutputInfo>::empty(),
            r.wf(),
    {
        Space { elements: Vec::new(), outputs: Vec::new() }
    }

    /// Slot of window `id` in the stack.
    fn position(&self, id: u32) -> (r: Option<usize>)
        requires
            self.wf(),
        ensures
            r matches Some(i) ==> find(self@.elements, id) == Some(i as int),
            r is None ==> find(self@.elements, id) is None,
    {
        let mut i: usize = 0;
        while i < self.elements.len()
            invariant
                self.wf(),
                i <= self.elements.len(),
                forall|j: int| 0 <= j < i ==> self.elements@[j].window.id != id,
            decreases self.elements.len() - i,
        {
            if self.elements[i].window.id == id {
                proof {
                    let es = self.elements@;
                    assert(0 <= i < es.len() && es[i as int].window.id == id);
                    let c = choose|k: int| 0 <= k < es.len() && es[k].window.id == id;
                    assert(es[c].window.id == es[i as int].window.id);
                }
                return Some(i);
            }
            i = i + 1;
        }
        None
    }

    /// Sets the activation flag of every window: true for `target` alone.
    fn set_activation(&mut self, target: Option<u32>)
        requires
            old(self).wf(),
        ensures
            final(self)@.elements == with_activation(old(self)@.elements, target),
            final(self)@.outputs == old(self)@.outputs,
            final(self).wf(),
    {
        let ghost es = self.elements@;
        let mut k: usize = 0;
        while k < self.elements.len()
            invariant
                k <= self.elements.len(),
                self.elements@.len() == es.len(),
                self.outputs@ == old(self).outputs@,
                es == old(self).elements@,
                forall|j: int| 0 <= j < k ==> self.elements@[j] == es[j].with_activated(
                    target == Some(es[j].window.id),
                ),
                forall|j: int| k <= j < es.len() ==> self.elements@[j] == es[j],
            decreases self.elements.len() - k,
        {
            let mut e = self.elements[k];
            e.window.pending.activated = match target {
                Some(t) => e.window.id == t,
                None => false,
            };
            self.elements.set(k, e);
            k = k + 1;
        }
        assert(self.elements@ =~= with_activation(es, target));
        assert forall|i: int, j: int|
            0 <= i < self.elements@.len() && 0 <= j < self.elements@.len()
                && #[trigger] self.elements@[i].window.id == #[trigger] self.elements@[j].window.id
            implies i == j by {
            assert(es[i].window.id == es[j].window.id);
        }
        assert forall|i: int| 0 <= i < self.elements@.len()
            implies (#[trigger] self.elements@[i]).window.size.valid() by {
            assert(es[i].window.size.valid());
        }
    }
}


impl Space {
    /// Maps `window` at `loc`: a new window goes on top of the stack; a mapped
    /// one moves to `loc`, taking the new record, and keeps its slot. With
    /// `activate` the window is also raised to the top and becomes the one
    /// activated window.
    pub fn map_element(&mut self, window: Window, loc: Point, activate: bool)
        requires
            old(self).wf(),
            window.size.valid(),
        ensures
            final(self)@.elements == mapped(old(self)@.elements, window, loc, activate),
            final(self)@.outputs == old(self)@.outputs,
            final(self).wf(),
    {
        let e = Element { window, loc };
        proof {
            lemma_place_wf(self@.elements, e, activate);
        }
        match self.position(window.id) {
            Some(i) => {
                if activate {
                    self.elements.remove(i);
                    self.elements.push(e);
                } else {
                    self.elements.set(i, e);
                }
            },
            None => {
                self.elements.push(e);
            },
        }
        if activate {
            self.set_activation(Some(window.id));
        }
    }

    /// Moves the mapped window `id` to the top of the stack without moving it
    /// on screen; with `activate` it becomes the one activated window. Does
    /// nothing for a window that is not mapped.
    pub fn raise_element(&mut self, id: u32, activate: bool)
        requires
            old(self).wf(),
        ensures
            final(self)@.elements == raised(old(self)@.elements, id, activate),
            final(self)@.outputs == old(self)@.outputs,
            final(self).wf(),
    {
        match self.position(id) {
            Some(i) => {
                let e = self.elements[i];
                proof {
                    lemma_place_wf(self@.elements, e, activate);
                }
                self.elements.remove(i);
                self.elements.push(e);
                if activate {
                    self.set_activation(Some(id));
                }
            },
            None => {},
        }
    }

    /// Clears the activation flag of every window.
    pub fn deactivate_all(&mut self)
        requires
            old(self).wf(),
        ensures
            final(self)@.elements == with_activation(old(self)@.elements, None),
            final(self)@.outputs == old(self)@.outputs,
            final(self).wf(),
    {
        self.set_activation(None);
    }

    /// The topmost window whose geometry holds `p`, with its location.
    pub fn element_under(&self, p: FixedPoint) -> (r: Option<(u32, Point)>)
        requires
            self.wf(),
        ensures
            r == (match top_hit(self@.elements, p) {
                Some(i) => Some((self@.elements[i].window.id, self@.elements[i].loc)),
                None => None,
            }),
    {
        let ghost es = self.elements@;
        let mut i: usize = self.elements.len();
        assert(es.subrange(0, i as int) =~= es);
        while i > 0
            invariant
                i <= es.len(),
                es == self.elements@,
                top_hit(es, p) == top_hit(es.subrange(0, i as int), p),
            decreases i,
        {
            let e = self.elements[i - 1];
            let sub = Ghost(es.subrange(0, i as int));
            assert(sub@.last() == e);
            assert(sub@.drop_last() =~= es.subrange(0, i - 1));
            if Rectangle::new(e.loc, e.window.size).contains(p) {
                return Some((e.window.id, e.loc));
            }
            i = i - 1;
        }
        None
    }

    /// The record of the mapped window `id`.
    pub fn window(&self, id: u32) -> (r: Option<Window>)
        requires
            self.wf(),
        ensures
            r == window_of(self@.elements, id),
    {
        match self.position(id) {
            Some(i) => Some(self.elements[i].window),
            None => None,
        }
    }

    /// Where the mapped window `id` sits.
    pub fn element_location(&self, id: u32) -> (r: Option<Point>)
        requires
            self.wf(),
        ensures
            r == (match find(self@.elements, id) {
                Some(i) => Some(self@.elements[i].loc),
                None => None,
            }),
    {
        match self.position(id) {
            Some(i) => Some(self.elements[i].loc),
            None => None,
        }
    }

    /// The geometry (location and size) of the mapped window `id`.
    pub fn element_geometry(&self, id: u32) -> (r: Option<Rectangle>)
        requires
            self.wf(),
        ensures
            r == geometry_of(self@.elements, id),
    {
        match self.position(id) {
            Some(i) => {
                let e = self.elements[i];
                Some(Rectangle::new(e.loc, e.window.size))
            },
            None => None,
        }
    }

    /// Replaces the record of the mapped window of the same id, keeping its
    /// location and slot. Does nothing for a window that is not mapped.
    pub fn update_window(&mut self, window: Window)
        requires
            old(self).wf(),
            window.size.valid(),
        ensures
            final(self)@.elements == (match find(old(self)@.elements, window.id) {
                Some(i) => old(self)@.elements.update(
                    i,
                    Element { window, loc: old(self)@.elements[i].loc },
                ),
                None => old(self)@.elements,
            }),
            final(self)@.outputs == old(self)@.outputs,
            final(self).wf(),
    {
        match self.position(window.id) {
            Some(i) => {
                let e = Element { window, loc: self.elements[i].loc };
                proof {
                    lemma_place_wf(self@.elements, e, false);
                }
                self.elements.set(i, e);
            },
            None => {},
        }
    }

    /// Ids of the mapped windows, bottom of the stack first.
    pub fn window_ids(&self) -> (r: Vec<u32>)
        ensures
            r@ == self@.elements.map_values(|e: Element| e.window.id),
    {
        let mut r: Vec<u32> = Vec::new();
        let mut i: usize = 0;
        while i < self.elements.len()
            invariant
                i <= self.elements.len(),
                r@ == self.elements@.subrange(0, i as int).map_values(|e: Element| e.window.id),
            decreases self.elements.len() - i,
        {
            r.push(self.elements[i].window.id);
            i = i + 1;
            assert(r@ =~= self.elements@.subrange(0, i as int).map_values(|e: Element| e.window.id));
        }
        assert(self.elements@.subrange(0, i as int) =~= self.elements@);
        r
    }

    /// Drops every window whose surface has been destroyed.
    pub fn refresh(&mut self)
        requires
            old(self).wf(),
        ensures
            final(self)@.elements == alive_only(old(self)@.elements),
            final(self)@.outputs == old(self)@.outputs,
            final(self).wf(),
    {
        let ghost es = self.elements@;
        let mut kept: Vec<Element> = Vec::new();
        let mut i: usize = 0;
        while i < self.elements.len()
            invariant
                es == self.elements@,
                elements_wf(es),
                i <= es.len(),
                kept@ == alive_only(es.subrange(0, i as int)),
                elements_wf(kept@),
                forall|k: int|
                    0 <= k < kept@.len() ==> exists|j: int|
                        0 <= j < i && #[trigger] kept@[k] == es[j],
            decreases es.len() - i,
        {
            let e = self.elements[i];
            let ghost before = kept@;
            assert(es.subrange(0, i + 1).drop_last() =~= es.subrange(0, i as int));
            if e.window.alive {
                kept.push(e);
                assert forall|x: int, y: int|
                    0 <= x < kept@.len() && 0 <= y < kept@.len() && #[trigger] kept@[x].window.id
                        == #[trigger] kept@[y].window.id implies x == y by {
                    if x < before.len() && y == before.len() {
                        let jx = choose|j: int| 0 <= j < i && before[x] == es[j];
                        assert(es[jx].window.id == es[i as int].window.id);
                    } else if y < before.len() && x == before.len() {
                        let jy = choose|j: int| 0 <= j < i && before[y] == es[j];
                        assert(es[jy].window.id == es[i as int].window.id);
                    } else if x < before.len() && y < before.len() {
                        assert(before[x].window.id == before[y].window.id);
                    }
                }
                assert forall|x: int| 0 <= x < kept@.len() implies (#[trigger] kept@[x]).window.size.valid() by {
                    if x < before.len() {
                        assert(kept@[x] == before[x]);
                    }
                }
                assert forall|k: int| 0 <= k < kept@.len() implies exists|j: int|
                    0 <= j < i + 1 && #[trigger] kept@[k] == es[j] by {
                    if k < before.len() {
                        let j = choose|j: int| 0 <= j < i && before[k] == es[j];
                        assert(kept@[k] == es[j]);
                    } else {
                        assert(kept@[k] == es[i as int]);
                    }
                }
            }
            i = i + 1;
        }
        assert(es.subrange(0, i as int) =~= es);
        self.elements = kept;
    }

    /// The windows drawn on an output of geometry `out`, topmost first.
    pub fn render_elements(&self, out: Rectangle) -> (r: Vec<Element>)
        ensures
            r@ == render_list(self@.elements, out),
    {
        let ghost es = self.elements@;
        let mut r: Vec<Element> = Vec::new();
        let mut i: usize = 0;
        while i < self.elements.len()
            invariant
                es == self.elements@,
                i <= es.len(),
                r@ == render_list(es.subrange(0, i as int), out),
            decreases es.len() - i,
        {
            let e = self.elements[i];
            assert(es.subrange(0, i + 1).drop_last() =~= es.subrange(0, i as int));
            if Rectangle::new(e.loc, e.window.size).overlaps(&out) {
                let ghost before = r@;
                r.insert(0, e);
                assert(r@ =~= seq![e] + before);
            }
            i = i + 1;
        }
        assert(es.subrange(0, i as int) =~= es);
        r
    }
}

impl Space {
    /// Maps output `id` with its top-left corner at `loc`, or moves it there.
    pub fn map_output(&mut self, id: u32, loc: Point, size: Size)
        requires
            old(self).wf(),
            size.valid(),
        ensures
            final(self)@.outputs == (match find_output(old(self)@.outputs, id) {
                Some(i) => old(self)@.outputs.update(
                    i,
                    OutputInfo { id, geometry: Rectangle { loc, size } },
                ),
                None => old(self)@.outputs.push(OutputInfo { id, geometry: Rectangle { loc, size } }),
            }),
            final(self)@.elements == old(self)@.elements,
            final(self).wf(),
    {
        let o = OutputInfo { id, geometry: Rectangle { loc, size } };
        let ghost os = self.outputs@;
        match self.output_position(id) {
            Some(i) => {
                self.outputs.set(i, o);
                assert forall|x: int, y: int|
                    0 <= x < self.outputs@.len() && 0 <= y < self.outputs@.len()
                        && #[trigger] self.outputs@[x].id == #[trigger] self.outputs@[y].id
                    implies x == y by {
                    assert(os[x].id == os[y].id);
                }
                assert forall|x: int| 0 <= x < self.outputs@.len()
                    implies (#[trigger] self.outputs@[x]).geometry.valid() by {
                    if x != i {
                        assert(self.outputs@[x] == os[x]);
                    }
                }
            },
            None => {
                self.outputs.push(o);
                assert forall|x: int, y: int|
                    0 <= x < self.outputs@.len() && 0 <= y < self.outputs@.len()
                        && #[trigger] self.outputs@[x].id == #[trigger] self.outputs@[y].id
                    implies x == y by {
                    if x < os.len() && y < os.len() {
                        assert(os[x].id == os[y].id);
                    } else if x < os.len() {
                        assert(os[x].id == id);
                    } else if y < os.len() {
                        assert(os[y].id == id);
                    }
                }
                assert forall|x: int| 0 <= x < self.outputs@.len()
                    implies (#[trigger] self.outputs@[x]).geometry.valid() by {
                    if x < os.len() {
                        assert(self.outputs@[x] == os[x]);
                    }
                }
            },
        }
    }

    fn output_position(&self, id: u32) -> (r: Option<usize>)
        requires
            self.wf(),
        ensures
            r matches Some(i) ==> find_output(self@.outputs, id) == Some(i as int),
            r is None ==> find_output(self@.outputs, id) is None,
    {
        let mut i: usize = 0;
        while i < self.outputs.len()
            invariant
                self.wf(),
                i <= self.outputs.len(),
                forall|j: int| 0 <= j < i ==> self.outputs@[j].id != id,
            decreases self.outputs.len() - i,
        {
            if self.outputs[i].id == id {
                proof {
                    let os = self.outputs@;
                    assert(0 <= i < os.len() && os[i as int].id == id);
                    let c = choose|k: int| 0 <= k < os.len() && os[k].id == id;
                    assert(os[c].id == os[i as int].id);
                }
                return Some(i);
            }
            i = i + 1;
        }
        None
    }

    /// The geometry of output `id`, if mapped.
    pub fn output_geometry(&self, id: u32) -> (r: Option<Rectangle>)
        requires
            self.wf(),
        ensures
            r == (match find_output(self@.outputs, id) {
                Some(i) => Some(self@.outputs[i].geometry),
                None => None,
            }),
    {
        match self.output_position(id) {
            Some(i) => Some(self.outputs[i].geometry),
            None => None,
        }
    }

    /// The first mapped output, the active one.
    pub fn first_output(&self) -> (r: Option<OutputInfo>)
        ensures
            r == (if self@.outputs.len() > 0 {
                Some(self@.outputs[0])
            } else {
                None
            }),
    {
        if self.outputs.len() > 0 {
            Some(self.outputs[0])
        } else {
            None
        }
    }

    /// Ids of the outputs whose geometry overlaps that of the mapped window
    /// `id`, in mapping order; empty if the window is not mapped.
    pub fn outputs_for_element(&self, id: u32) -> (r: Vec<u32>)
        requires
            self.wf(),
        ensures
            r@ == (match geometry_of(self@.elements, id) {
                Some(g) => meeting_outputs(self@.outputs, g),
                None => Seq::empty(),
            }),
    {
        let mut r: Vec<u32> = Vec::new();
        match self.element_geometry(id) {
            Some(g) => {
                let ghost os = self.outputs@;
                let mut i: usize = 0;
                while i < self.outputs.len()
                    invariant
                        os == self.outputs@,
                        i <= os.len(),
                        r@ == meeting_outputs(os.subrange(0, i as int), g),
                    decreases os.len() - i,
                {
                    let o = self.outputs[i];
                    assert(os.subrange(0, i + 1).drop_last() =~= os.subrange(0, i as int));
                    if o.geometry.overlaps(&g) {
                        r.push(o.id);
                    }
                    i = i + 1;
                }
                assert(os.subrange(0, i as int) =~= os);
            },
            None => {},
        }
        r
    }
}

} // verus!
