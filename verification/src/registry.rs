//! The overlay window registry: one entry per label, each with its
//! descriptor and visibility.
//!
//! The registry owns every lifecycle decision: creation is idempotent per
//! label (a second request for a registered label is a no-op, not an
//! error), a freshly created overlay starts `Hidden`, and batch
//! visibility changes fan out to every tracked window except the primary
//! control window, which is only ever notified, never shown or hidden
//! directly. The host windowing capability owns the live window resources
//! themselves; the registry holds the plain data the host is driven with
//! and is the single authority on what each label's state is.

use vstd::prelude::*;

verus! {

/// Visibility of one tracked window. A freshly created overlay is
/// `Hidden`: overlays are built invisible and surfaced deliberately.
#[derive(Clone, Copy, Debug, PartialEq, Eq, Structural)]
pub enum Visibility {
    Visible,
    Hidden,
}

/// The abstract state of one tracked window: its label and visibility.
#[verifier::ext_equal]
pub struct WinState {
    pub label: Seq<char>,
    pub vis: Visibility,
}

/// The label of the primary control window. Visibility commands notify
/// it instead of showing or hiding it directly.
pub open spec fn primary_label() -> Seq<char> {
    "main"@
}

/// Whether a label names the primary control window.
pub open spec fn is_primary(label: Seq<char>) -> bool {
    label == primary_label()
}

/// Whether some tracked window carries this label.
pub open spec fn contains_label(m: Seq<WinState>, label: Seq<char>) -> bool {
    exists|i: int| 0 <= i < m.len() && #[trigger] m[i].label == label
}

/// No two tracked windows share a label.
pub open spec fn labels_unique(m: Seq<WinState>) -> bool {
    forall|i: int, j: int|
        0 <= i < j < m.len() ==> #[trigger] m[i].label != #[trigger] m[j].label
}

/// How many tracked windows carry this label.
pub open spec fn count_label(m: Seq<WinState>, label: Seq<char>) -> nat
    decreases m.len(),
{
    if m.len() == 0 {
        0
    } else {
        (if m.last().label == label {
            1nat
        } else {
            0nat
        }) + count_label(m.drop_last(), label)
    }
}

/// The visibility of the window with this label, if one is tracked.
pub open spec fn vis_of(m: Seq<WinState>, label: Seq<char>) -> Option<Visibility>
    decreases m.len(),
{
    if m.len() == 0 {
        None
    } else if m.first().label == label {
        Some(m.first().vis)
    } else {
        vis_of(m.drop_first(), label)
    }
}

/// The registry transition for a creation request: a no-op for a label
/// already tracked, otherwise the label is appended with state `Hidden`.
pub open spec fn create_step(m: Seq<WinState>, label: Seq<char>) -> Seq<WinState> {
    if contains_label(m, label) {
        m
    } else {
        m.push(WinState { label, vis: Visibility::Hidden })
    }
}

/// One window's part of a batch visibility change: the primary window is
/// left alone, every other window takes the new visibility.
pub open spec fn vis_step(w: WinState, v: Visibility) -> WinState {
    if is_primary(w.label) {
        w
    } else {
        WinState { label: w.label, vis: v }
    }
}

/// The registry transition for a batch visibility change.
pub open spec fn apply_vis(m: Seq<WinState>, v: Visibility) -> Seq<WinState> {
    m.map_values(|w: WinState| vis_step(w, v))
}

/// The labels of all tracked windows, in registry order.
pub open spec fn all_labels(m: Seq<WinState>) -> Seq<Seq<char>> {
    m.map_values(|w: WinState| w.label)
}

/// The labels of all non-primary tracked windows, in registry order.
pub open spec fn non_primary_labels(m: Seq<WinState>) -> Seq<Seq<char>> {
    all_labels(m).filter(|l: Seq<char>| !is_primary(l))
}

/// The views of a list of label strings, in order.
pub open spec fn views_of(labels: Seq<String>) -> Seq<Seq<char>> {
    labels.map_values(|s: String| s@)
}

/// The content route an overlay window is created with, derived
/// deterministically from its label.
pub open spec fn route_spec(label: Seq<char>) -> Seq<char> {
    "index.html#"@ + label
}

/// Position and size of one window.
#[derive(Clone, Copy, Debug, PartialEq, Eq, Structural)]
pub struct Geometry {
    pub x: i64,
    pub y: i64,
    pub width: u64,
    pub height: u64,
}

/// The chrome an overlay window is requested with.
///
/// `transparent` records that a transparent background is wanted; a host
/// without compositor-level transparency may leave it unsatisfied, an
/// accepted degradation rather than an error.
#[derive(Clone, Copy, Debug, PartialEq, Eq, Structural)]
pub struct ChromeFlags {
    pub decorated: bool,
    pub transparent: bool,
    pub always_on_top: bool,
    pub skip_taskbar: bool,
    pub resizable: bool,
    pub closable: bool,
    pub minimizable: bool,
    pub maximizable: bool,
    pub focusable: bool,
    pub shadowed: bool,
    pub initially_visible: bool,
}

/// The fixed geometry of every overlay: a one-pixel window at the
/// origin, visually negligible until its content draws something.
pub open spec fn overlay_geometry() -> Geometry {
    Geometry { x: 0, y: 0, width: 1, height: 1 }
}

/// The fixed chrome of every overlay: undecorated, shadowless,
/// transparent, always on top, out of the taskbar, never focusable and
/// not user-adjustable, built invisible.
pub open spec fn overlay_chrome() -> ChromeFlags {
    ChromeFlags {
        decorated: false,
        transparent: true,
        always_on_top: true,
        skip_taskbar: true,
        resizable: false,
        closable: false,
        minimizable: false,
        maximizable: false,
        focusable: false,
        shadowed: false,
        initially_visible: false,
    }
}

/// Everything the host windowing capability needs to build one overlay
/// window for a label.
#[derive(Clone, Debug, PartialEq)]
pub struct WindowDescriptor {
    pub label: String,
    pub route: String,
    pub geometry: Geometry,
    pub chrome: ChromeFlags,
}

/// A descriptor is well formed when its route is derived from its label
/// and it carries the fixed overlay geometry and chrome.
pub open spec fn descriptor_wf(d: WindowDescriptor) -> bool {
    &&& d.route@ == route_spec(d.label@)
    &&& d.geometry == overlay_geometry()
    &&& d.chrome == overlay_chrome()
}

/// The outcome of a creation request.
#[derive(Debug, PartialEq)]
pub enum CreateOutcome {
    /// The label was new: this descriptor is to be handed to the host
    /// windowing capability, and the window is now tracked as `Hidden`.
    Created(WindowDescriptor),
    /// The label was already tracked: nothing to do, and no second
    /// creation request reaches the host.
    AlreadyRegistered,
}

struct WindowEntry {
    descriptor: WindowDescriptor,
    visibility: Visibility,
}

/// The abstract state of one entry.
spec fn state_of(w: WindowEntry) -> WinState {
    WinState { label: w.descriptor.label@, vis: w.visibility }
}

/// One entry's part of a batch visibility change.
spec fn entry_vis_step(w: WindowEntry, v: Visibility) -> WindowEntry {
    if is_primary(w.descriptor.label@) {
        w
    } else {
        WindowEntry { descriptor: w.descriptor, visibility: v }
    }
}

/// The registry of tracked windows, keyed by label.
pub struct Registry {
    windows: Vec<WindowEntry>,
}

impl View for Registry {
    type V = Seq<WinState>;

    closed spec fn view(&self) -> Seq<WinState> {
        self.windows@.map_values(|w: WindowEntry| state_of(w))
    }
}

/// Whether a label string names the primary control window.
pub fn is_primary_name(label: &String) -> (r: bool)
    ensures
        r == is_primary(label@),
{
    let p: String = "main".to_owned();
    *label == p
}

/// Build the route string for a label.
fn route_for_label(label: &String) -> (r: String)
    ensures
        r@ == route_spec(label@),
{
    let prefix: String = "index.html#".to_owned();
    prefix.concat(label.as_str())
}

/// Build the fixed overlay geometry.
fn overlay_geometry_exec() -> (g: Geometry)
    ensures
        g == overlay_geometry(),
{
    Geometry { x: 0, y: 0, width: 1, height: 1 }
}

/// Build the fixed overlay chrome.
fn overlay_chrome_exec() -> (c: ChromeFlags)
    ensures
        c == overlay_chrome(),
{
    ChromeFlags {
        decorated: false,
        transparent: true,
        always_on_top: true,
        skip_taskbar: true,
        resizable: false,
        closable: false,
        minimizable: false,
        maximizable: false,
        focusable: false,
        shadowed: false,
        initially_visible: false,
    }
}

impl Registry {
    /// Labels are unique and every stored descriptor is well formed.
    pub closed spec fn wf(&self) -> bool {
        &&& labels_unique(self@)
        &&& forall|i: int|
            0 <= i < self.windows@.len() ==> descriptor_wf(
                #[trigger] self.windows@[i].descriptor,
            )
    }

    /// An empty registry.
    pub fn new() -> (r: Registry)
        ensures
            r.wf(),
            r@ == Seq::<WinState>::empty(),
    {
        let r = Registry { windows: Vec::new() };
        proof {
            assert(r@ =~= Seq::<WinState>::empty());
        }
        r
    }

    /// How many windows are tracked.
    pub fn len(&self) -> (n: usize)
        ensures
            n == self@.len(),
    {
        self.windows.len()
    }

    /// Whether this label is tracked.
    pub fn contains(&self, label: &String) -> (r: bool)
        ensures
            r == contains_label(self@, label@),
    {
        let n = self.windows.len();
        for i in 0..n
            invariant
                n == self.windows.len(),
                forall|j: int| 0 <= j < i ==> self@[j].label != label@,
        {
            if self.windows[i].descriptor.label == *label {
                proof {
                    assert(self@[i as int].label == label@);
                }
                return true;
            }
        }
        false
    }

    /// Whether the primary control window is tracked.
    pub fn has_primary(&self) -> (r: bool)
        ensures
            r == contains_label(self@, primary_label()),
    {
        let p: String = "main".to_owned();
        self.contains(&p)
    }

    /// The visibility of the window with this label, if one is tracked.
    pub fn visibility_of(&self, label: &String) -> (r: Option<Visibility>)
        ensures
            r == vis_of(self@, label@),
    {
        let n = self.windows.len();
        for i in 0..n
            invariant
                n == self.windows.len(),
                forall|j: int| 0 <= j < i ==> self@[j].label != label@,
        {
            if self.windows[i].descriptor.label == *label {
                proof {
                    lemma_vis_of_skip(self@, label@, i as int);
                    assert(self@.skip(i as int).first() == self@[i as int]);
                }
                return Some(self.windows[i].visibility);
            }
        }
        proof {
            lemma_vis_of_skip(self@, label@, n as int);
            assert(self@.skip(n as int) =~= Seq::<WinState>::empty());
        }
        None
    }

    /// The labels of all tracked windows, in registry order.
    pub fn labels(&self) -> (ls: Vec<String>)
        ensures
            views_of(ls@) == all_labels(self@),
    {
        let mut ls: Vec<String> = Vec::new();
        let n = self.windows.len();
        for i in 0..n
            invariant
                n == self.windows.len(),
                views_of(ls@) == all_labels(self@.take(i as int)),
        {
            ls.push(self.windows[i].descriptor.label.clone());
            proof {
                assert(self@.take(i + 1) =~= self@.take(i as int).push(self@[i as int]));
                assert(all_labels(self@.take(i as int).push(self@[i as int])) =~= all_labels(
                    self@.take(i as int),
                ).push(self@[i as int].label));
                assert(views_of(ls@) =~= all_labels(self@.take(i + 1)));
            }
        }
        proof {
            assert(self@.take(n as int) =~= self@);
        }
        ls
    }

    /// Handle a creation request for a label.
    ///
    /// Idempotent per label: a second request for a tracked label changes
    /// nothing and hands no descriptor to the host. A new label is
    /// registered as `Hidden` and its descriptor is returned for the host
    /// windowing capability to build; a failure of that build is the
    /// caller's to surface.
    pub fn create(&mut self, label: String) -> (outcome: CreateOutcome)
        requires
            old(self).wf(),
        ensures
            final(self).wf(),
            final(self)@ == create_step(old(self)@, label@),
            contains_label(old(self)@, label@) ==> outcome is AlreadyRegistered,
            !contains_label(old(self)@, label@) ==> (outcome matches CreateOutcome::Created(d)
                && d.label@ == label@ && descriptor_wf(d)),
    {
        let n = self.windows.len();
        for i in 0..n
            invariant
                n == self.windows.len(),
                *self == *old(self),
                old(self).wf(),
                forall|j: int| 0 <= j < i ==> self@[j].label != label@,
        {
            if self.windows[i].descriptor.label == label {
                proof {
                    assert(self@[i as int].label == label@);
                }
                return CreateOutcome::AlreadyRegistered;
            }
        }
        let route = route_for_label(&label);
        let descriptor = WindowDescriptor {
            label: label.clone(),
            route: route.clone(),
            geometry: overlay_geometry_exec(),
            chrome: overlay_chrome_exec(),
        };
        let stored = WindowDescriptor {
            label,
            route,
            geometry: overlay_geometry_exec(),
            chrome: overlay_chrome_exec(),
        };
        proof {
            assert(!contains_label(old(self)@, stored.label@));
        }
        let ghost prior = self@;
        self.windows.push(WindowEntry { descriptor: stored, visibility: Visibility::Hidden });
        proof {
            assert(self@ =~= prior.push(WinState { label: descriptor.label@, vis: Visibility::Hidden }));
            assert forall|i: int, j: int| 0 <= i < j < self@.len() implies #[trigger] self@[i].label
                != #[trigger] self@[j].label by {
                if j < self@.len() - 1 {
                    assert(prior[i].label != prior[j].label);
                } else {
                    assert(self@[i] == prior[i]);
                    assert(!contains_label(prior, self@[j].label));
                }
            };
        }
        CreateOutcome::Created(descriptor)
    }

    /// Apply one visibility to every non-primary tracked window; the
    /// primary control window is never shown or hidden directly. Returns
    /// the affected labels in registry order.
    pub fn set_visibility_all(&mut self, v: Visibility) -> (affected: Vec<String>)
        requires
            old(self).wf(),
        ensures
            final(self).wf(),
            final(self)@ == apply_vis(old(self)@, v),
            views_of(affected@) == non_primary_labels(old(self)@),
    {
        let mut affected: Vec<String> = Vec::new();
        let n = self.windows.len();
        for i in 0..n
            invariant
                n == self.windows.len(),
                self.windows@.len() == old(self).windows@.len(),
                forall|j: int| i <= j < n ==> self.windows@[j] == old(self).windows@[j],
                forall|j: int|
                    0 <= j < i ==> self.windows@[j] == entry_vis_step(
                        old(self).windows@[j],
                        v,
                    ),
                views_of(affected@) == non_primary_labels(old(self)@.take(i as int)),
        {
            let is_p = is_primary_name(&self.windows[i].descriptor.label);
            if !is_p {
                let lbl = self.windows[i].descriptor.label.clone();
                self.windows[i].visibility = v;
                affected.push(lbl);
            }
            proof {
                assert(old(self)@.take(i + 1) =~= old(self)@.take(i as int).push(
                    old(self)@[i as int],
                ));
                lemma_non_primary_labels_push(old(self)@.take(i as int), old(self)@[i as int]);
                assert(old(self)@[i as int].label == old(self).windows@[i as int].descriptor.label@);
                if !is_p {
                    assert(views_of(affected@) =~= non_primary_labels(old(self)@.take(i as int)).push(
                        old(self)@[i as int].label,
                    ));
                }
            }
        }
        proof {
            assert(old(self)@.take(n as int) =~= old(self)@);
            assert forall|j: int| 0 <= j < self@.len() implies self@[j] == vis_step(
                old(self)@[j],
                v,
            ) by {
                assert(self.windows@[j] == entry_vis_step(old(self).windows@[j], v));
            };
            assert(self@ =~= apply_vis(old(self)@, v));
            assert forall|i: int, j: int| 0 <= i < j < self@.len() implies #[trigger] self@[i].label
                != #[trigger] self@[j].label by {
                assert(old(self)@[i].label != old(self)@[j].label);
            };
            assert forall|i: int| 0 <= i < self.windows@.len() implies descriptor_wf(
                #[trigger] self.windows@[i].descriptor,
            ) by {
                assert(self.windows@[i] == entry_vis_step(old(self).windows@[i], v));
                assert(descriptor_wf(old(self).windows@[i].descriptor));
            };
        }
        affected
    }
}

/// Searching past an unmatched prefix does not change the lookup result.
proof fn lemma_vis_of_skip(m: Seq<WinState>, label: Seq<char>, i: int)
    requires
        0 <= i <= m.len(),
        forall|j: int| 0 <= j < i ==> m[j].label != label,
    ensures
        vis_of(m, label) == vis_of(m.skip(i), label),
    decreases i,
{
    if i > 0 {
        assert(m.first().label != label);
        lemma_vis_of_skip(m.drop_first(), label, i - 1);
        assert(m.drop_first().skip(i - 1) =~= m.skip(i));
    } else {
        assert(m.skip(0) =~= m);
    }
}

/// Appending a window with a different label does not change a lookup.
proof fn lemma_vis_of_push(m: Seq<WinState>, w: WinState, label: Seq<char>)
    requires
        w.label != label,
    ensures
        vis_of(m.push(w), label) == vis_of(m, label),
    decreases m.len(),
{
    let mp = m.push(w);
    if m.len() == 0 {
        assert(mp.first() == w);
        assert(mp.drop_first() =~= Seq::<WinState>::empty());
    } else {
        assert(mp.first() == m.first());
        assert(mp.drop_first() =~= m.drop_first().push(w));
        lemma_vis_of_push(m.drop_first(), w, label);
    }
}

/// A label is tracked exactly when looking it up finds a visibility.
pub proof fn lemma_vis_of_some_iff_contains(m: Seq<WinState>, label: Seq<char>)
    ensures
        (vis_of(m, label) is Some) <==> contains_label(m, label),
    decreases m.len(),
{
    if m.len() > 0 {
        lemma_vis_of_some_iff_contains(m.drop_first(), label);
        if m.first().label == label {
            assert(m[0].label == label);
        } else {
            if contains_label(m.drop_first(), label) {
                let i = choose|i: int|
                    0 <= i < m.drop_first().len() && #[trigger] m.drop_first()[i].label == label;
                assert(m[i + 1].label == label);
            }
            if contains_label(m, label) {
                let i = choose|i: int| 0 <= i < m.len() && #[trigger] m[i].label == label;
                assert(m.drop_first()[i - 1].label == label);
            }
        }
    }
}

/// Appending a non-primary label extends the non-primary label list;
/// appending the primary label leaves it unchanged.
proof fn lemma_non_primary_labels_push(m: Seq<WinState>, w: WinState)
    ensures
        non_primary_labels(m.push(w)) == (if is_primary(w.label) {
            non_primary_labels(m)
        } else {
            non_primary_labels(m).push(w.label)
        }),
{
    reveal(Seq::filter);
    assert(all_labels(m.push(w)) =~= all_labels(m).push(w.label));
    assert(all_labels(m).push(w.label).drop_last() =~= all_labels(m));
    assert(all_labels(m).push(w.label).last() == w.label);
}

/// With unique labels, a tracked label is tracked exactly once.
proof fn lemma_unique_count(m: Seq<WinState>, label: Seq<char>)
    requires
        labels_unique(m),
    ensures
        count_label(m, label) == (if contains_label(m, label) {
            1nat
        } else {
            0nat
        }),
    decreases m.len(),
{
    if m.len() == 0 {
        assert(!contains_label(m, label));
    } else {
        let m0 = m.drop_last();
        assert forall|i: int, j: int| 0 <= i < j < m0.len() implies #[trigger] m0[i].label
            != #[trigger] m0[j].label by {
            assert(m[i].label != m[j].label);
        };
        lemma_unique_count(m0, label);
        if m.last().label == label {
            assert(contains_label(m, label)) by {
                assert(m[m.len() - 1].label == label);
            };
            assert(!contains_label(m0, label)) by {
                if contains_label(m0, label) {
                    let i = choose|i: int| 0 <= i < m0.len() && #[trigger] m0[i].label == label;
                    assert(m[i].label == m[m.len() - 1].label);
                }
            };
        } else {
            if contains_label(m0, label) {
                let i = choose|i: int| 0 <= i < m0.len() && #[trigger] m0[i].label == label;
                assert(m[i].label == label);
            }
            if contains_label(m, label) {
                let i = choose|i: int| 0 <= i < m.len() && #[trigger] m[i].label == label;
                assert(i < m.len() - 1);
                assert(m0[i].label == label);
            }
        }
    }
}

/// Creating the same label twice registers exactly one window: the
/// second request leaves the registry unchanged, and no second creation
/// request reaches the host windowing capability.
pub proof fn lemma_create_idempotent(m: Seq<WinState>, label: Seq<char>)
    requires
        labels_unique(m),
    ensures
        create_step(create_step(m, label), label) == create_step(m, label),
        contains_label(create_step(m, label), label),
        count_label(create_step(m, label), label) == 1,
        contains_label(m, label) ==> create_step(m, label) == m,
        !contains_label(m, label) ==> create_step(m, label).len() == m.len() + 1,
        labels_unique(create_step(m, label)),
{
    let m1 = create_step(m, label);
    if contains_label(m, label) {
        lemma_unique_count(m, label);
    } else {
        assert(m1 == m.push(WinState { label, vis: Visibility::Hidden }));
        assert(contains_label(m1, label)) by {
            assert(m1[m.len() as int].label == label);
        };
        assert forall|i: int, j: int| 0 <= i < j < m1.len() implies #[trigger] m1[i].label
            != #[trigger] m1[j].label by {
            if j < m1.len() - 1 {
                assert(m[i].label != m[j].label);
            } else {
                assert(m1[i] == m[i]);
                if m[i].label == label {
                    assert(contains_label(m, label));
                }
            }
        };
        lemma_unique_count(m1, label);
    }
}

/// A freshly created window starts `Hidden`.
pub proof fn lemma_create_starts_hidden(m: Seq<WinState>, label: Seq<char>)
    requires
        !contains_label(m, label),
    ensures
        vis_of(create_step(m, label), label) == Some(Visibility::Hidden),
{
    let w = WinState { label, vis: Visibility::Hidden };
    assert forall|j: int| 0 <= j < m.len() implies m[j].label != label by {
        if m[j].label == label {
            assert(contains_label(m, label));
        }
    };
    lemma_vis_of_skip(m.push(w), label, m.len() as int);
    assert(m.push(w).skip(m.len() as int) =~= seq![w]);
}

/// Creating one label does not change any other label's visibility.
pub proof fn lemma_create_preserves_others(m: Seq<WinState>, label: Seq<char>, other: Seq<char>)
    requires
        other != label,
    ensures
        vis_of(create_step(m, label), other) == vis_of(m, other),
{
    if !contains_label(m, label) {
        lemma_vis_of_push(m, WinState { label, vis: Visibility::Hidden }, other);
    }
}

/// What a batch visibility change does to one label's state: an
/// untracked label stays untracked, the primary window keeps its own
/// state, and every other tracked window takes the new visibility.
pub proof fn lemma_vis_of_apply_vis(m: Seq<WinState>, v: Visibility, label: Seq<char>)
    ensures
        vis_of(apply_vis(m, v), label) == (match vis_of(m, label) {
            Option::None => None::<Visibility>,
            Option::Some(w) => Some(
                if is_primary(label) {
                    w
                } else {
                    v
                },
            ),
        }),
    decreases m.len(),
{
    let ma = apply_vis(m, v);
    if m.len() > 0 {
        assert(ma.first() == vis_step(m.first(), v));
        assert(ma.drop_first() =~= apply_vis(m.drop_first(), v));
        lemma_vis_of_apply_vis(m.drop_first(), v, label);
    }
}

/// A batch visibility change moves no window in or out of the registry
/// and changes no label.
pub proof fn lemma_apply_vis_keeps_labels(m: Seq<WinState>, v: Visibility)
    ensures
        apply_vis(m, v).len() == m.len(),
        forall|i: int| 0 <= i < m.len() ==> #[trigger] apply_vis(m, v)[i].label == m[i].label,
        forall|label: Seq<char>|
            contains_label(apply_vis(m, v), label) == #[trigger] contains_label(m, label),
        labels_unique(m) ==> labels_unique(apply_vis(m, v)),
{
    let ma = apply_vis(m, v);
    assert forall|label: Seq<char>|
        contains_label(ma, label) == #[trigger] contains_label(m, label) by {
        if contains_label(m, label) {
            let i = choose|i: int| 0 <= i < m.len() && #[trigger] m[i].label == label;
            assert(ma[i].label == label);
        }
        if contains_label(ma, label) {
            let i = choose|i: int| 0 <= i < ma.len() && #[trigger] ma[i].label == label;
            assert(m[i].label == label);
        }
    };
    if labels_unique(m) {
        assert forall|i: int, j: int| 0 <= i < j < ma.len() implies #[trigger] ma[i].label
            != #[trigger] ma[j].label by {
            assert(m[i].label != m[j].label);
        };
    }
}

} // verus!
