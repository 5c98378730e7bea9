//! Image overlay composition for SRT video sources: overlay images with
//! position, size, opacity and z-order, kept per source slot.

use vstd::prelude::*;
use crate::text::{chars_of, seq_eq};

verus! {

/// Position and size of an overlay image on the canvas.
#[derive(Clone, Copy, Debug, PartialEq, Eq, Structural)]
pub struct OverlayRect {
    /// X offset from canvas left (pixels).
    pub x: i32,
    /// Y offset from canvas top (pixels).
    pub y: i32,
    /// Width in pixels (0 = use original image width).
    pub width: u32,
    /// Height in pixels (0 = use original image height).
    pub height: u32,
}

impl Default for OverlayRect {
    fn default() -> (r: OverlayRect)
        ensures
            r == (OverlayRect { x: 0, y: 0, width: 0, height: 0 }),
    {
        OverlayRect { x: 0, y: 0, width: 0, height: 0 }
    }
}

/// Where the overlay image comes from.
#[derive(Clone, Debug)]
pub enum OverlaySource {
    /// A file path.
    File(String),
    Url(String),
}

/// The mathematical form of an [`OverlaySource`].
pub ghost enum SourceView {
    File(Seq<char>),
    Url(Seq<char>),
}

impl View for OverlaySource {
    type V = SourceView;

    open spec fn view(&self) -> SourceView {
        match self {
            OverlaySource::File(p) => SourceView::File(p@),
            OverlaySource::Url(u) => SourceView::Url(u@),
        }
    }
}

impl OverlaySource {
    /// An independent copy.
    pub fn duplicate(&self) -> (r: OverlaySource)
        ensures
            r@ == self@,
    {
        match self {
            OverlaySource::File(p) => OverlaySource::File(p.clone()),
            OverlaySource::Url(u) => OverlaySource::Url(u.clone()),
        }
    }
}

/// The IEEE-754 bits of the opacity 1.0 (fully opaque).
pub const OPAQUE_ALPHA_BITS: u64 = 0x3FF0_0000_0000_0000;

/// The z-order of an overlay created without one.
pub const DEFAULT_Z_ORDER: i32 = 10;

/// Configuration for a single overlay image.
#[derive(Clone, Debug)]
pub struct OverlayConfig {
    pub id: String,
    /// Source SRT slot this overlay is attached to.
    pub slot_id: String,
    /// Whether this overlay is currently rendered.
    pub visible: bool,
    /// File path or URL of the image.
    pub source: OverlaySource,
    /// Position and size on the composition canvas.
    pub rect: OverlayRect,
    /// Opacity 0.0 (fully transparent) .. 1.0 (fully opaque), carried as
    /// the IEEE-754 bits of the `f64`.
    pub alpha_bits: u64,
    /// Stacking order relative to other overlays on the same slot.
    pub z_order: i32,
}

/// The mathematical form of an [`OverlayConfig`].
pub ghost struct OverlayView {
    pub id: Seq<char>,
    pub slot_id: Seq<char>,
    pub visible: bool,
    pub source: SourceView,
    pub rect: OverlayRect,
    pub alpha_bits: u64,
    pub z_order: i32,
}

impl View for OverlayConfig {
    type V = OverlayView;

    open spec fn view(&self) -> OverlayView {
        OverlayView {
            id: self.id@,
            slot_id: self.slot_id@,
            visible: self.visible,
            source: self.source@,
            rect: self.rect,
            alpha_bits: self.alpha_bits,
            z_order: self.z_order,
        }
    }
}

impl OverlayConfig {
    /// A visible, fully opaque overlay with a fresh random id, an empty
    /// file path, a zero rectangle and z-order 10.
    pub fn new_default() -> (c: OverlayConfig)
        ensures
            crate::ident::is_uuid_text(c.id@),
            c.slot_id@.len() == 0,
            c.visible,
            c.source@ == SourceView::File(Seq::empty()),
            c.rect == (OverlayRect { x: 0, y: 0, width: 0, height: 0 }),
            c.alpha_bits == OPAQUE_ALPHA_BITS,
            c.z_order == DEFAULT_Z_ORDER,
    {
        OverlayConfig {
            id: crate::ident::new_uuid_v4_string(),
            slot_id: String::new(),
            visible: true,
            source: OverlaySource::File(String::new()),
            rect: OverlayRect { x: 0, y: 0, width: 0, height: 0 },
            alpha_bits: OPAQUE_ALPHA_BITS,
            z_order: DEFAULT_Z_ORDER,
        }
    }

    /// An independent copy.
    pub fn duplicate(&self) -> (r: OverlayConfig)
        ensures
            r@ == self@,
    {
        OverlayConfig {
            id: self.id.clone(),
            slot_id: self.slot_id.clone(),
            visible: self.visible,
            source: self.source.duplicate(),
            rect: self.rect,
            alpha_bits: self.alpha_bits,
            z_order: self.z_order,
        }
    }
}

impl Default for OverlayConfig {
    fn default() -> (c: OverlayConfig)
        ensures
            crate::ident::is_uuid_text(c.id@),
            c.slot_id@.len() == 0,
            c.visible,
            c.source@ == SourceView::File(Seq::empty()),
            c.rect == (OverlayRect { x: 0, y: 0, width: 0, height: 0 }),
            c.alpha_bits == OPAQUE_ALPHA_BITS,
            c.z_order == DEFAULT_Z_ORDER,
    {
        OverlayConfig::new_default()
    }
}

// ---------------------------------------------------------------------
// Views of an overlay collection
// ---------------------------------------------------------------------

/// The views of a list of overlays.
pub open spec fn views(s: Seq<OverlayConfig>) -> Seq<OverlayView> {
    s.map_values(|c: OverlayConfig| c@)
}

/// No two overlays share an id.
pub open spec fn unique_ids(s: Seq<OverlayView>) -> bool {
    forall|i: int, j: int| 0 <= i < j < s.len() ==> s[i].id != s[j].id
}

/// The overlays shown on a slot: those attached to it and visible, in order.
pub open spec fn shown_on(s: Seq<OverlayView>, slot: Seq<char>) -> Seq<OverlayView>
    decreases s.len(),
{
    if s.len() == 0 {
        s
    } else if s.last().slot_id == slot && s.last().visible {
        shown_on(s.drop_last(), slot).push(s.last())
    } else {
        shown_on(s.drop_last(), slot)
    }
}

/// `x` placed into `s` after every element whose z-order is not above its
/// own (a stable insertion).
pub open spec fn insert_by_z(s: Seq<OverlayView>, x: OverlayView) -> Seq<OverlayView>
    decreases s.len(),
{
    if s.len() == 0 {
        seq![x]
    } else if s.last().z_order <= x.z_order {
        s.push(x)
    } else {
        insert_by_z(s.drop_last(), x).push(s.last())
    }
}

/// `s` stably sorted by z-order.
pub open spec fn sort_by_z(s: Seq<OverlayView>) -> Seq<OverlayView>
    decreases s.len(),
{
    if s.len() == 0 {
        s
    } else {
        insert_by_z(sort_by_z(s.drop_last()), s.last())
    }
}

/// `s` is in non-decreasing z-order.
pub open spec fn z_sorted(s: Seq<OverlayView>) -> bool {
    forall|i: int, j: int| 0 <= i <= j < s.len() ==> s[i].z_order <= s[j].z_order
}

/// The index of the overlay with `id`, if any.
pub open spec fn index_of_id(s: Seq<OverlayView>, id: Seq<char>) -> Option<int> {
    if exists|i: int| 0 <= i < s.len() && s[i].id == id {
        Some(choose|i: int| 0 <= i < s.len() && s[i].id == id)
    } else {
        None
    }
}

/// The collection after adding or replacing the overlay `c` (by id).
pub open spec fn upserted(s: Seq<OverlayView>, c: OverlayView) -> Seq<OverlayView> {
    match index_of_id(s, c.id) {
        Some(i) => s.update(i, c),
        None => s.push(c),
    }
}

/// The collection after removing the overlay with `id`, if present.
pub open spec fn removed(s: Seq<OverlayView>, id: Seq<char>) -> Seq<OverlayView> {
    match index_of_id(s, id) {
        Some(i) => s.remove(i),
        None => s,
    }
}

proof fn lemma_index_of_unique(s: Seq<OverlayView>, i: int)
    requires
        unique_ids(s),
        0 <= i < s.len(),
    ensures
        index_of_id(s, s[i].id) == Some(i),
{
}

/// Manages overlay images across all SRT source slots.
pub struct OverlayManager {
    overlays: Vec<OverlayConfig>,
}

impl View for OverlayManager {
    type V = Seq<OverlayView>;

    closed spec fn view(&self) -> Seq<OverlayView> {
        views(self.overlays@)
    }
}

impl OverlayManager {
    #[verifier::type_invariant]
    closed spec fn inv(self) -> bool {
        unique_ids(views(self.overlays@))
    }

    pub fn new() -> (m: OverlayManager)
        ensures
            m@ == Seq::<OverlayView>::empty(),
    {
        let m = OverlayManager { overlays: Vec::new() };
        assert(views(m.overlays@) =~= Seq::<OverlayView>::empty());
        m
    }

    /// Add or update an overlay (by id).
    pub fn upsert(&mut self, config: OverlayConfig)
        ensures
            final(self)@ == upserted(old(self)@, config@),
            unique_ids(final(self)@),
    {
        proof { use_type_invariant(&*self); }
        let idc = chars_of(config.id.as_str());
        let ghost before = self@;
        let ghost cv = config@;
        let mut overlays: Vec<OverlayConfig> = Vec::new();
        std::mem::swap(&mut overlays, &mut self.overlays);
        match self.position_in(&overlays, &idc) {
            Some(i) => {
                proof { lemma_index_of_unique(before, i as int); }
                overlays.set(i, config);
                assert(views(overlays@) =~= before.update(i as int, cv));
            },
            None => {
                overlays.push(config);
                assert(views(overlays@) =~= before.push(cv));
            },
        }
        self.overlays = overlays;
    }

    /// Remove an overlay by id.
    pub fn remove(&mut self, id: &str)
        ensures
            final(self)@ == removed(old(self)@, id@),
            unique_ids(final(self)@),
    {
        proof { use_type_invariant(&*self); }
        let idc = chars_of(id);
        let ghost before = self@;
        let mut overlays: Vec<OverlayConfig> = Vec::new();
        std::mem::swap(&mut overlays, &mut self.overlays);
        match self.position_in(&overlays, &idc) {
            Some(i) => {
                proof { lemma_index_of_unique(before, i as int); }
                overlays.remove(i);
                assert(views(overlays@) =~= before.remove(i as int));
            },
            None => {},
        }
        self.overlays = overlays;
    }

    fn position_in(&self, overlays: &Vec<OverlayConfig>, id: &Vec<char>) -> (r: Option<usize>)
        ensures
            match r {
                Some(i) => i < overlays@.len() && overlays@[i as int].id@ == id@,
                None => forall|i: int| 0 <= i < overlays@.len() ==> overlays@[i].id@ != id@,
            },
    {
        let mut i: usize = 0;
        while i < overlays.len()
            invariant
                i <= overlays@.len(),
                forall|j: int| 0 <= j < i ==> overlays@[j].id@ != id@,
            decreases overlays@.len() - i,
        {
            let kc = chars_of(overlays[i].id.as_str());
            if seq_eq(&kc, id) {
                return Some(i);
            }
            i = i + 1;
        }
        None
    }

    /// All overlays (for persistence).
    pub fn all(&self) -> (r: Vec<OverlayConfig>)
        ensures
            views(r@) == self@,
    {
        let mut out: Vec<OverlayConfig> = Vec::new();
        let mut i: usize = 0;
        while i < self.overlays.len()
            invariant
                i <= self.overlays@.len(),
                out@.len() == i,
                views(out@) == views(self.overlays@).take(i as int),
            decreases self.overlays@.len() - i,
        {
            let ghost prev = out@;
            let d = self.overlays[i].duplicate();
            out.push(d);
            proof {
                assert(out@.len() == i + 1);
                assert forall|k: int| 0 <= k < i + 1 implies #[trigger] views(out@)[k] == views(self.overlays@).take(i + 1)[k] by {
                    if k < i {
                        assert(out@[k] == prev[k]);
                        assert(views(prev)[k] == views(self.overlays@).take(i as int)[k]);
                    }
                }
                assert(views(out@) =~= views(self.overlays@).take(i + 1));
            }
            i = i + 1;
        }
        assert(views(self.overlays@).take(i as int) =~= views(self.overlays@));
        out
    }
}

proof fn lemma_insert_by_z_at(s: Seq<OverlayView>, x: OverlayView, j: int)
    requires
        0 <= j <= s.len(),
        forall|k: int| j <= k < s.len() ==> s[k].z_order > x.z_order,
        j == 0 || s[j - 1].z_order <= x.z_order,
    ensures
        insert_by_z(s, x) == s.insert(j, x),
    decreases s.len(),
{
    if s.len() == 0 {
        assert(s.insert(0, x) =~= seq![x]);
    } else if j == s.len() {
        assert(s.insert(j, x) =~= s.push(x));
    } else {
        let init = s.drop_last();
        assert forall|k: int| j <= k < init.len() implies init[k].z_order > x.z_order by {
            assert(init[k] == s[k]);
        }
        if j > 0 {
            assert(init[j - 1] == s[j - 1]);
        }
        lemma_insert_by_z_at(init, x, j);
        assert(init.insert(j, x).push(s.last()) =~= s.insert(j, x));
    }
}

proof fn lemma_insert_by_z_sorted(s: Seq<OverlayView>, x: OverlayView)
    requires
        z_sorted(s),
    ensures
        z_sorted(insert_by_z(s, x)),
        insert_by_z(s, x).to_multiset() == s.to_multiset().insert(x),
    decreases s.len(),
{
    broadcast use vstd::seq_lib::group_to_multiset_ensures;
    if s.len() == 0 {
        assert(seq![x] =~= s.push(x));
    } else if s.last().z_order <= x.z_order {
    } else {
        let init = s.drop_last();
        assert(z_sorted(init));
        lemma_insert_by_z_sorted(init, x);
        let t = insert_by_z(init, x);
        assert(init.push(s.last()) =~= s);
        lemma_insert_by_z_members(init, x);
        assert forall|a: int, b: int| 0 <= a <= b < t.len() + 1 implies t.push(s.last())[a].z_order <= t.push(s.last())[b].z_order by {
            if b == t.len() && a < t.len() {
                let e = t[a];
                assert(t.to_multiset().count(e) > 0);
                if e != x {
                    assert(init.to_multiset().count(e) > 0);
                    assert(init.contains(e));
                    let k = choose|k: int| 0 <= k < init.len() && init[k] == e;
                    assert(s[k] == e);
                }
            }
        }
    }
}

proof fn lemma_insert_by_z_members(s: Seq<OverlayView>, x: OverlayView)
    ensures
        insert_by_z(s, x).to_multiset() == s.to_multiset().insert(x),
        insert_by_z(s, x).len() == s.len() + 1,
    decreases s.len(),
{
    broadcast use vstd::seq_lib::group_to_multiset_ensures;
    if s.len() == 0 {
        assert(seq![x] =~= s.push(x));
    } else if s.last().z_order <= x.z_order {
    } else {
        let init = s.drop_last();
        lemma_insert_by_z_members(init, x);
        assert(init.push(s.last()) =~= s);
        assert(insert_by_z(s, x).to_multiset() =~= s.to_multiset().insert(x));
    }
}

proof fn lemma_shown_on_take(s: Seq<OverlayView>, slot: Seq<char>, i: int)
    requires
        0 <= i < s.len(),
    ensures
        shown_on(s.take(i + 1), slot) == if s[i].slot_id == slot && s[i].visible {
            shown_on(s.take(i), slot).push(s[i])
        } else {
            shown_on(s.take(i), slot)
        },
{
    assert(s.take(i + 1).drop_last() =~= s.take(i));
}

/// The overlays shown on a slot come out in non-decreasing z-order.
pub proof fn law_slot_overlays_sorted(s: Seq<OverlayView>, slot: Seq<char>)
    ensures
        z_sorted(sort_by_z(shown_on(s, slot))),
{
    lemma_sort_by_z(shown_on(s, slot));
}

proof fn lemma_sort_by_z(s: Seq<OverlayView>)
    ensures
        z_sorted(sort_by_z(s)),
        sort_by_z(s).to_multiset() == s.to_multiset(),
    decreases s.len(),
{
    broadcast use vstd::seq_lib::group_to_multiset_ensures;
    if s.len() > 0 {
        lemma_sort_by_z(s.drop_last());
        lemma_insert_by_z_sorted(sort_by_z(s.drop_last()), s.last());
        assert(s.drop_last().push(s.last()) =~= s);
    }
}

/// The overlays returned for a slot are exactly the slot's visible ones:
/// each overlay of the collection occurs in the result as often as it
/// occurs in the collection when it is attached to the slot and visible,
/// and not at all otherwise.
pub proof fn law_slot_overlays_members(s: Seq<OverlayView>, slot: Seq<char>, x: OverlayView)
    ensures
        sort_by_z(shown_on(s, slot)).to_multiset().count(x) == if x.slot_id == slot && x.visible {
            s.to_multiset().count(x)
        } else {
            0
        },
{
    lemma_sort_by_z(shown_on(s, slot));
    lemma_shown_on_count(s, slot, x);
}

proof fn lemma_shown_on_count(s: Seq<OverlayView>, slot: Seq<char>, x: OverlayView)
    ensures
        shown_on(s, slot).to_multiset().count(x) == if x.slot_id == slot && x.visible {
            s.to_multiset().count(x)
        } else {
            0
        },
    decreases s.len(),
{
    broadcast use vstd::seq_lib::group_to_multiset_ensures;
    if s.len() == 0 {
    } else {
        lemma_shown_on_count(s.drop_last(), slot, x);
        assert(s.drop_last().push(s.last()) =~= s);
    }
}

impl OverlayManager {
    /// All overlays attached to a slot and visible, stably sorted by
    /// z-order.
    pub fn overlays_for_slot(&self, slot_id: &str) -> (r: Vec<OverlayConfig>)
        ensures
            views(r@) == sort_by_z(shown_on(self@, slot_id@)),
    {
        let sc = chars_of(slot_id);
        let mut result: Vec<OverlayConfig> = Vec::new();
        let n = self.overlays.len();
        let mut i: usize = 0;
        while i < n
            invariant
                n == self.overlays@.len(),
                i <= n,
                sc@ == slot_id@,
                views(result@) == sort_by_z(shown_on(self@.take(i as int), slot_id@)),
            decreases n - i,
        {
            proof { lemma_shown_on_take(self@, slot_id@, i as int); }
            let o = &self.overlays[i];
            let oc = chars_of(o.slot_id.as_str());
            if o.visible && seq_eq(&oc, &sc) {
                let x = o.duplicate();
                let ghost before = views(result@);
                let mut j = result.len();
                while j > 0 && result[j - 1].z_order > x.z_order
                    invariant
                        j <= result@.len(),
                        before == views(result@),
                        forall|k: int| j <= k < result@.len() ==> result@[k].z_order > x.z_order,
                    decreases j,
                {
                    j = j - 1;
                }
                proof {
                    assert(before.len() == result@.len());
                    assert forall|k: int| j <= k < before.len() implies before[k].z_order > x@.z_order by {
                        assert(before[k] == result@[k]@);
                    }
                    if j > 0 {
                        assert(before[j - 1] == result@[j - 1]@);
                    }
                    lemma_insert_by_z_at(before, x@, j as int);
                    assert(self@[i as int] == x@);
                }
                let ghost xv = x@;
                result.insert(j, x);
                assert(views(result@) =~= before.insert(j as int, xv));
                proof {
                    let t = shown_on(self@.take(i as int), slot_id@);
                    assert(t.push(xv).drop_last() =~= t);
                    assert(sort_by_z(t.push(xv)) == insert_by_z(sort_by_z(t), xv));
                }
            }
            i = i + 1;
        }
        assert(self@.take(n as int) =~= self@);
        result
    }
}

impl Default for OverlayManager {
    fn default() -> (m: OverlayManager)
        ensures
            m@ == Seq::<OverlayView>::empty(),
    {
        OverlayManager::new()
    }
}

} // verus!
