//! The lists the settings pages edit: the control bar, the bitrate
//! presets, the macros and the macro being drafted, the cast history and
//! the network interfaces, with the rules each edit follows.

use vstd::prelude::*;
use super::defaults::{
    action_views, debug_actions, default_presets, default_quick_actions, factory_actions,
    factory_presets, preset_views, BitratePreset, PresetView, QuickAction, QuickActionKind,
    QuickActionView,
};
use crate::text::{decimal, owned, push_decimal, push_str, str_eq};

verus! {

// ---------------------------------------------------------------------
// Positions and keys
// ---------------------------------------------------------------------

/// Whether a UI index (an `i32`) designates an element of a list of `len`.
pub open spec fn index_in(i: i32, len: nat) -> bool {
    0 <= i && i < len
}

/// The list with the element at `from` moved to position `to`.
pub open spec fn moved<T>(s: Seq<T>, from: int, to: int) -> Seq<T> {
    s.remove(from).insert(to, s[from])
}

/// The list after a drag from `from` to `to`: the element moves when both
/// indexes are in the list and differ; otherwise nothing changes.
pub open spec fn dragged<T>(s: Seq<T>, from: i32, to: i32) -> Seq<T> {
    if index_in(from, s.len()) && index_in(to, s.len()) && from != to {
        moved(s, from as int, to as int)
    } else {
        s
    }
}

/// Moves the element at `from` to `to` (see [`dragged`]).
pub fn move_item<T>(list: &mut Vec<T>, from: i32, to: i32)
    ensures
        final(list)@ == dragged(old(list)@, from, to),
{
    let len = list.len();
    if from >= 0 && to >= 0 && (from as usize) < len && (to as usize) < len && from != to {
        let item = list.remove(from as usize);
        list.insert(to as usize, item);
    }
}

/// `key` is at `i` and nowhere before.
pub open spec fn is_first_key(keys: Seq<Seq<char>>, key: Seq<char>, i: int) -> bool {
    0 <= i < keys.len() && keys[i] == key && forall|j: int| 0 <= j < i ==> keys[j] != key
}

/// `key` occurs among `keys`.
pub open spec fn has_key(keys: Seq<Seq<char>>, key: Seq<char>) -> bool {
    exists|i: int| 0 <= i < keys.len() && keys[i] == key
}

/// The first position of `key` (meaningful when it occurs).
pub open spec fn first_key(keys: Seq<Seq<char>>, key: Seq<char>) -> int {
    choose|i: int| is_first_key(keys, key, i)
}

proof fn lemma_first_key(keys: Seq<Seq<char>>, key: Seq<char>, i: int)
    requires
        is_first_key(keys, key, i),
    ensures
        first_key(keys, key) == i,
        has_key(keys, key),
{
    let k = first_key(keys, key);
    assert(is_first_key(keys, key, k));
    if k < i {
        assert(keys[k] != key);
    } else if i < k {
        assert(keys[i] != key);
    }
}

// ---------------------------------------------------------------------
// Control bar
// ---------------------------------------------------------------------

/// The control bar after switching the action at `idx` on or off (nothing
/// changes for an index outside the bar).
pub open spec fn bar_enabled(s: Seq<QuickActionView>, idx: i32, enabled: bool) -> Seq<QuickActionView> {
    if index_in(idx, s.len()) {
        s.update(idx as int, QuickActionView { enabled, ..s[idx as int] })
    } else {
        s
    }
}

/// Switches the action at `idx` on or off.
pub fn set_bar_action_enabled(actions: &mut Vec<QuickAction>, idx: i32, enabled: bool)
    ensures
        action_views(final(actions)@) == bar_enabled(action_views(old(actions)@), idx, enabled),
{
    if idx >= 0 && (idx as usize) < actions.len() {
        let i = idx as usize;
        let ghost before = action_views(actions@);
        let mut a = actions.remove(i);
        a.enabled = enabled;
        let ghost av = a@;
        actions.insert(i, a);
        proof {
            assert(action_views(actions@) =~= before.update(i as int, av));
        }
    }
}

// ---------------------------------------------------------------------
// Bitrate presets
// ---------------------------------------------------------------------

/// The ids of presets.
pub open spec fn preset_ids(s: Seq<PresetView>) -> Seq<Seq<char>> {
    s.map_values(|p: PresetView| p.id)
}

/// The id of the `n`-th preset created by the user.
pub open spec fn custom_id(n: u64) -> Seq<char> {
    "custom-"@ + decimal(n as nat)
}

/// The presets after saving `name` at `kbps` under `id`: an empty id adds
/// an inactive preset with the next user id; another id renames and
/// re-rates the first preset that has it (nothing changes when none has).
pub open spec fn preset_saved(s: Seq<PresetView>, next: u64, id: Seq<char>, name: Seq<char>, kbps: i32) -> Seq<PresetView> {
    if id.len() == 0 {
        s.push(PresetView { id: custom_id(next), name, bitrate_kbps: kbps, active: false })
    } else if has_key(preset_ids(s), id) {
        let i = first_key(preset_ids(s), id);
        s.update(i, PresetView { name, bitrate_kbps: kbps, ..s[i] })
    } else {
        s
    }
}

/// The presets without those whose id is `id`.
pub open spec fn presets_without(s: Seq<PresetView>, id: Seq<char>) -> Seq<PresetView>
    decreases s.len(),
{
    if s.len() == 0 {
        s
    } else {
        let rest = presets_without(s.drop_last(), id);
        if s.last().id == id { rest } else { rest.push(s.last()) }
    }
}

/// Some preset is active.
pub open spec fn any_active(s: Seq<PresetView>) -> bool {
    exists|i: int| 0 <= i < s.len() && s[i].active
}

/// The presets after deleting `id`: every preset with that id goes; if
/// then none is active, the first one becomes active.
pub open spec fn preset_deleted(s: Seq<PresetView>, id: Seq<char>) -> Seq<PresetView> {
    let kept = presets_without(s, id);
    if !any_active(kept) && kept.len() > 0 {
        kept.update(0, PresetView { active: true, ..kept[0] })
    } else {
        kept
    }
}

/// The presets after choosing `id`: exactly those with that id are active.
pub open spec fn preset_activated(s: Seq<PresetView>, id: Seq<char>) -> Seq<PresetView> {
    s.map_values(|p: PresetView| PresetView { active: p.id == id, ..p })
}

impl BitratePreset {
    /// An independent copy.
    pub fn duplicate(&self) -> (p: BitratePreset)
        ensures
            p@ == self@,
    {
        BitratePreset {
            id: self.id.clone(),
            name: self.name.clone(),
            bitrate_kbps: self.bitrate_kbps,
            active: self.active,
        }
    }
}

/// The position of the first preset with `id`, if any.
fn find_preset(presets: &Vec<BitratePreset>, id: &str) -> (r: Option<usize>)
    ensures
        match r {
            Some(i) => i < presets.len() && first_key(preset_ids(preset_views(presets@)), id@) == i
                && has_key(preset_ids(preset_views(presets@)), id@),
            None => !has_key(preset_ids(preset_views(presets@)), id@),
        },
{
    let ghost ks = preset_ids(preset_views(presets@));
    let mut i: usize = 0;
    while i < presets.len()
        invariant
            i <= presets.len(),
            ks == preset_ids(preset_views(presets@)),
            forall|j: int| 0 <= j < i ==> ks[j] != id@,
        decreases presets.len() - i,
    {
        if str_eq(presets[i].id.as_str(), id) {
            proof { lemma_first_key(ks, id@, i as int); }
            return Some(i);
        }
        i = i + 1;
    }
    None
}

/// The id for the `n`-th user preset.
fn make_custom_id(n: u64) -> (s: String)
    ensures
        s@ == custom_id(n),
{
    let mut s = owned("custom-");
    push_decimal(&mut s, n);
    s
}

/// Saves a preset (see [`preset_saved`]); a new preset takes the id
/// numbered by `next_id`, which then advances (wrapping like an atomic
/// counter).
pub fn save_preset(presets: &mut Vec<BitratePreset>, next_id: &mut u64, id: &str, name: &str, kbps: i32)
    ensures
        preset_views(final(presets)@) == preset_saved(preset_views(old(presets)@), *old(next_id), id@, name@, kbps),
        *final(next_id) == (if id@.len() == 0 {
            if *old(next_id) == u64::MAX { 0 } else { (*old(next_id) + 1) as u64 }
        } else {
            *old(next_id)
        }),
{
    let ghost before = preset_views(presets@);
    if id.is_empty() {
        let new_id = make_custom_id(*next_id);
        *next_id = (*next_id).wrapping_add(1);
        let p = BitratePreset { id: new_id, name: owned(name), bitrate_kbps: kbps, active: false };
        let ghost pv = p@;
        presets.push(p);
        proof {
            assert(preset_views(presets@) =~= before.push(pv));
        }
    } else {
        match find_preset(presets, id) {
            Some(i) => {
                let mut p = presets.remove(i);
                p.name = owned(name);
                p.bitrate_kbps = kbps;
                let ghost pv = p@;
                presets.insert(i, p);
                proof {
                    assert(preset_views(presets@) =~= before.update(i as int, pv));
                }
            },
            None => {},
        }
    }
}

/// Deletes a preset (see [`preset_deleted`]).
pub fn delete_preset(presets: &mut Vec<BitratePreset>, id: &str)
    ensures
        preset_views(final(presets)@) == preset_deleted(preset_views(old(presets)@), id@),
{
    let ghost before = preset_views(presets@);
    let mut kept: Vec<BitratePreset> = Vec::new();
    let mut any = false;
    let mut i: usize = 0;
    while i < presets.len()
        invariant
            i <= presets.len(),
            before == preset_views(presets@),
            preset_views(kept@) == presets_without(before.take(i as int), id@),
            any == any_active(preset_views(kept@)),
        decreases presets.len() - i,
    {
        proof {
            assert(before.take(i + 1).drop_last() =~= before.take(i as int));
            assert(before.take(i + 1).last() == presets@[i as int]@);
        }
        if !str_eq(presets[i].id.as_str(), id) {
            let p = presets[i].duplicate();
            let ghost prev = preset_views(kept@);
            let ghost pv = p@;
            let active = p.active;
            kept.push(p);
            proof {
                assert(preset_views(kept@) =~= prev.push(pv));
                if !any && !active {
                    assert forall|j: int| 0 <= j < preset_views(kept@).len() implies !preset_views(kept@)[j].active by {
                        if j < prev.len() {
                            assert(preset_views(kept@)[j] == prev[j]);
                        }
                    }
                }
                if active {
                    assert(preset_views(kept@)[prev.len() as int].active);
                }
                if any {
                    let w = choose|w: int| 0 <= w < prev.len() && prev[w].active;
                    assert(preset_views(kept@)[w] == prev[w]);
                }
            }
            any = any || active;
        }
        i = i + 1;
    }
    proof {
        assert(before.take(presets.len() as int) =~= before);
    }
    if !any && kept.len() > 0 {
        let ghost kv = preset_views(kept@);
        let mut first = kept.remove(0);
        first.active = true;
        let ghost fv = first@;
        kept.insert(0, first);
        proof {
            assert(preset_views(kept@) =~= kv.update(0, fv));
        }
    }
    *presets = kept;
}

/// Makes `id` the active preset (see [`preset_activated`]).
pub fn set_active_preset(presets: &mut Vec<BitratePreset>, id: &str)
    ensures
        preset_views(final(presets)@) == preset_activated(preset_views(old(presets)@), id@),
{
    let ghost before = preset_views(presets@);
    let mut out: Vec<BitratePreset> = Vec::new();
    let mut i: usize = 0;
    while i < presets.len()
        invariant
            i <= presets.len(),
            before == preset_views(presets@),
            preset_views(out@) == preset_activated(before.take(i as int), id@),
        decreases presets.len() - i,
    {
        let mut p = presets[i].duplicate();
        p.active = str_eq(p.id.as_str(), id);
        let ghost prev = preset_views(out@);
        let ghost pv = p@;
        out.push(p);
        proof {
            assert(preset_views(out@) =~= prev.push(pv));
            assert(preset_activated(before.take(i + 1), id@) =~= preset_activated(before.take(i as int), id@).push(pv));
        }
        i = i + 1;
    }
    proof {
        assert(before.take(presets.len() as int) =~= before);
    }
    *presets = out;
}

/// After a deletion that leaves presets, one of them is active: the user
/// is never left without a selection.
pub proof fn law_delete_keeps_a_selection(s: Seq<PresetView>, id: Seq<char>)
    requires
        preset_deleted(s, id).len() > 0,
    ensures
        any_active(preset_deleted(s, id)),
{
    let kept = presets_without(s, id);
    if !any_active(kept) && kept.len() > 0 {
        let d = preset_deleted(s, id);
        assert(d[0].active);
    }
}

/// After choosing a preset by an id that presets have, exactly those
/// presets are active; with unique ids that is a single preset.
pub proof fn law_activation_selects_exactly(s: Seq<PresetView>, id: Seq<char>, i: int)
    requires
        0 <= i < s.len(),
    ensures
        preset_activated(s, id)[i].active == (s[i].id == id),
        preset_activated(s, id)[i].id == s[i].id,
        preset_activated(s, id).len() == s.len(),
{
}

/// Moving an element and moving it back restores the list.
pub proof fn law_move_back_restores<T>(s: Seq<T>, from: i32, to: i32)
    ensures
        dragged(dragged(s, from, to), to, from) == s,
{
    if index_in(from, s.len()) && index_in(to, s.len()) && from != to {
        let m = moved(s, from as int, to as int);
        assert(m.len() == s.len());
        assert(m[to as int] == s[from as int]);
        assert(moved(m, to as int, from as int) =~= s);
    }
}


// ---------------------------------------------------------------------
// Macros
// ---------------------------------------------------------------------

/// A step of a macro: the action it runs and its label.
pub struct MacroStep {
    pub kind: QuickActionKind,
    pub label: String,
}

/// A saved macro.
pub struct Macro {
    pub id: String,
    pub name: String,
    pub steps: Vec<MacroStep>,
    pub enabled: bool,
}

/// What a step is.
pub open spec fn step_view(st: MacroStep) -> (QuickActionKind, Seq<char>) {
    (st.kind, st.label@)
}

/// The views of steps.
pub open spec fn step_views(s: Seq<MacroStep>) -> Seq<(QuickActionKind, Seq<char>)> {
    s.map_values(|st: MacroStep| step_view(st))
}

/// What a macro is.
pub ghost struct MacroView {
    pub id: Seq<char>,
    pub name: Seq<char>,
    pub steps: Seq<(QuickActionKind, Seq<char>)>,
    pub enabled: bool,
}

impl View for Macro {
    type V = MacroView;

    open spec fn view(&self) -> MacroView {
        MacroView {
            id: self.id@,
            name: self.name@,
            steps: step_views(self.steps@),
            enabled: self.enabled,
        }
    }
}

/// The views of macros.
pub open spec fn macro_views(s: Seq<Macro>) -> Seq<MacroView> {
    s.map_values(|m: Macro| m@)
}

/// The ids of macros.
pub open spec fn macro_ids(s: Seq<MacroView>) -> Seq<Seq<char>> {
    s.map_values(|m: MacroView| m.id)
}

/// The id of the `n`-th macro.
pub open spec fn macro_id(n: u64) -> Seq<char> {
    "macro-"@ + decimal(n as nat)
}

/// The macros after saving: an empty id adds a macro with the next id;
/// another id updates the first macro that has it (nothing changes when
/// none has).
pub open spec fn macro_saved(
    s: Seq<MacroView>,
    next: u64,
    id: Seq<char>,
    name: Seq<char>,
    steps: Seq<(QuickActionKind, Seq<char>)>,
    enabled: bool,
) -> Seq<MacroView> {
    if id.len() == 0 {
        s.push(MacroView { id: macro_id(next), name, steps, enabled })
    } else if has_key(macro_ids(s), id) {
        let i = first_key(macro_ids(s), id);
        s.update(i, MacroView { name, steps, enabled, ..s[i] })
    } else {
        s
    }
}

/// The macros without those whose id is `id`.
pub open spec fn macros_without(s: Seq<MacroView>, id: Seq<char>) -> Seq<MacroView>
    decreases s.len(),
{
    if s.len() == 0 {
        s
    } else {
        let rest = macros_without(s.drop_last(), id);
        if s.last().id == id { rest } else { rest.push(s.last()) }
    }
}

impl MacroStep {
    /// An independent copy.
    pub fn duplicate(&self) -> (r: MacroStep)
        ensures
            step_view(r) == step_view(*self),
    {
        MacroStep { kind: self.kind, label: self.label.clone() }
    }
}

/// An independent copy of steps.
pub fn copy_steps(steps: &Vec<MacroStep>) -> (r: Vec<MacroStep>)
    ensures
        step_views(r@) == step_views(steps@),
{
    let mut r: Vec<MacroStep> = Vec::new();
    let mut i: usize = 0;
    while i < steps.len()
        invariant
            i <= steps.len(),
            step_views(r@) == step_views(steps@).take(i as int),
        decreases steps.len() - i,
    {
        let st = steps[i].duplicate();
        let ghost prev = step_views(r@);
        r.push(st);
        proof {
            assert(step_views(r@) =~= prev.push(step_view(st)));
            assert(step_views(steps@).take(i + 1) =~= step_views(steps@).take(i as int).push(step_view(steps@[i as int])));
        }
        i = i + 1;
    }
    proof {
        assert(step_views(steps@).take(steps.len() as int) =~= step_views(steps@));
    }
    r
}

impl Macro {
    /// An independent copy.
    pub fn duplicate(&self) -> (r: Macro)
        ensures
            r@ == self@,
    {
        Macro {
            id: self.id.clone(),
            name: self.name.clone(),
            steps: copy_steps(&self.steps),
            enabled: self.enabled,
        }
    }
}

/// The position of the first macro with `id`, if any.
fn find_macro(macros: &Vec<Macro>, id: &str) -> (r: Option<usize>)
    ensures
        match r {
            Some(i) => i < macros.len() && first_key(macro_ids(macro_views(macros@)), id@) == i
                && has_key(macro_ids(macro_views(macros@)), id@),
            None => !has_key(macro_ids(macro_views(macros@)), id@),
        },
{
    let ghost ks = macro_ids(macro_views(macros@));
    let mut i: usize = 0;
    while i < macros.len()
        invariant
            i <= macros.len(),
            ks == macro_ids(macro_views(macros@)),
            forall|j: int| 0 <= j < i ==> ks[j] != id@,
        decreases macros.len() - i,
    {
        if str_eq(macros[i].id.as_str(), id) {
            proof { lemma_first_key(ks, id@, i as int); }
            return Some(i);
        }
        i = i + 1;
    }
    None
}

/// Saves a macro (see [`macro_saved`]); a new macro takes the id numbered
/// by `next_id`, which then advances (wrapping like an atomic counter).
pub fn save_macro(
    macros: &mut Vec<Macro>,
    next_id: &mut u64,
    id: &str,
    name: &str,
    steps: Vec<MacroStep>,
    enabled: bool,
)
    ensures
        macro_views(final(macros)@) == macro_saved(
            macro_views(old(macros)@),
            *old(next_id),
            id@,
            name@,
            step_views(steps@),
            enabled,
        ),
        *final(next_id) == (if id@.len() == 0 {
            if *old(next_id) == u64::MAX { 0 } else { (*old(next_id) + 1) as u64 }
        } else {
            *old(next_id)
        }),
{
    let ghost before = macro_views(macros@);
    if id.is_empty() {
        let mut new_id = owned("macro-");
        push_decimal(&mut new_id, *next_id);
        *next_id = (*next_id).wrapping_add(1);
        let m = Macro { id: new_id, name: owned(name), steps, enabled };
        let ghost mv = m@;
        macros.push(m);
        proof {
            assert(macro_views(macros@) =~= before.push(mv));
        }
    } else {
        match find_macro(macros, id) {
            Some(i) => {
                let mut m = macros.remove(i);
                m.name = owned(name);
                m.enabled = enabled;
                m.steps = steps;
                let ghost mv = m@;
                macros.insert(i, m);
                proof {
                    assert(macro_views(macros@) =~= before.update(i as int, mv));
                }
            },
            None => {},
        }
    }
}

/// Deletes every macro with `id`.
pub fn delete_macro(macros: &mut Vec<Macro>, id: &str)
    ensures
        macro_views(final(macros)@) == macros_without(macro_views(old(macros)@), id@),
{
    let ghost before = macro_views(macros@);
    let mut kept: Vec<Macro> = Vec::new();
    let mut i: usize = 0;
    while i < macros.len()
        invariant
            i <= macros.len(),
            before == macro_views(macros@),
            macro_views(kept@) == macros_without(before.take(i as int), id@),
        decreases macros.len() - i,
    {
        proof {
            assert(before.take(i + 1).drop_last() =~= before.take(i as int));
            assert(before.take(i + 1).last() == macros@[i as int]@);
        }
        if !str_eq(macros[i].id.as_str(), id) {
            let m = macros[i].duplicate();
            let ghost prev = macro_views(kept@);
            let ghost mv = m@;
            kept.push(m);
            proof {
                assert(macro_views(kept@) =~= prev.push(mv));
            }
        }
        i = i + 1;
    }
    proof {
        assert(before.take(macros.len() as int) =~= before);
    }
    *macros = kept;
}

/// The banner shown when macro `id` is run: `Ran macro: <name>` for the
/// first macro with that id, else `Macro <id> not found`.
pub open spec fn run_banner_text(s: Seq<MacroView>, id: Seq<char>) -> (bool, Seq<char>) {
    if has_key(macro_ids(s), id) {
        (true, "Ran macro: "@ + s[first_key(macro_ids(s), id)].name)
    } else {
        (false, "Macro "@ + id + " not found"@)
    }
}

/// The banner for running macro `id`: whether it was found, and the text.
pub fn run_macro(macros: &Vec<Macro>, id: &str) -> (r: (bool, String))
    ensures
        (r.0, r.1@) == run_banner_text(macro_views(macros@), id@),
{
    match find_macro(macros, id) {
        Some(i) => {
            let mut t = owned("Ran macro: ");
            push_str(&mut t, macros[i].name.as_str());
            (true, t)
        },
        None => {
            let mut t = owned("Macro ");
            push_str(&mut t, id);
            push_str(&mut t, " not found");
            (false, t)
        },
    }
}

/// The draft editor's content: its steps, name and enabled flag.
pub struct MacroDraft {
    pub steps: Vec<MacroStep>,
    pub name: String,
    pub enabled: bool,
}

/// The draft opened for macro `id`: the first macro with that id, or an
/// empty enabled draft (for an empty or unknown id).
pub open spec fn draft_for(s: Seq<MacroView>, id: Seq<char>) -> MacroView {
    if id.len() > 0 && has_key(macro_ids(s), id) {
        s[first_key(macro_ids(s), id)]
    } else {
        MacroView { id, name: Seq::empty(), steps: Seq::empty(), enabled: true }
    }
}

/// Opens the draft editor on macro `id` (see [`draft_for`]).
pub fn load_draft_macro(macros: &Vec<Macro>, id: &str) -> (d: MacroDraft)
    ensures
        step_views(d.steps@) == draft_for(macro_views(macros@), id@).steps,
        d.name@ == draft_for(macro_views(macros@), id@).name,
        d.enabled == draft_for(macro_views(macros@), id@).enabled,
{
    if !id.is_empty() {
        match find_macro(macros, id) {
            Some(i) => {
                return MacroDraft {
                    steps: copy_steps(&macros[i].steps),
                    name: macros[i].name.clone(),
                    enabled: macros[i].enabled,
                };
            },
            None => {},
        }
    }
    let steps: Vec<MacroStep> = Vec::new();
    proof {
        assert(step_views(steps@) =~= Seq::<(QuickActionKind, Seq<char>)>::empty());
    }
    MacroDraft { steps, name: String::new(), enabled: true }
}

/// The label of a step added to a draft.
pub open spec fn step_label(kind: QuickActionKind) -> Seq<char> {
    match kind {
        QuickActionKind::ScanQr => "Scan QR"@,
        QuickActionKind::OpenAudio => "Open Audio"@,
        QuickActionKind::OpenCamera => "Open Camera"@,
        QuickActionKind::StartRecord => "Start Recording"@,
        QuickActionKind::StopRecord => "Stop Recording"@,
        QuickActionKind::StopCast => "Stop Cast"@,
        _ => ""@,
    }
}

/// Adds a step of `kind`, labelled for its kind, at the end of the draft.
pub fn draft_add_step(steps: &mut Vec<MacroStep>, kind: QuickActionKind)
    ensures
        step_views(final(steps)@) == step_views(old(steps)@).push((kind, step_label(kind))),
{
    let label = match kind {
        QuickActionKind::ScanQr => "Scan QR",
        QuickActionKind::OpenAudio => "Open Audio",
        QuickActionKind::OpenCamera => "Open Camera",
        QuickActionKind::StartRecord => "Start Recording",
        QuickActionKind::StopRecord => "Stop Recording",
        QuickActionKind::StopCast => "Stop Cast",
        _ => "",
    };
    let ghost before = step_views(steps@);
    steps.push(MacroStep { kind, label: owned(label) });
    proof {
        assert(step_views(steps@) =~= before.push((kind, step_label(kind))));
    }
}

/// Removes the draft step at `idx` (nothing changes for an index outside
/// the draft).
pub fn draft_remove_step(steps: &mut Vec<MacroStep>, idx: i32)
    ensures
        final(steps)@ == (if index_in(idx, old(steps)@.len()) {
            old(steps)@.remove(idx as int)
        } else {
            old(steps)@
        }),
{
    if idx >= 0 && (idx as usize) < steps.len() {
        steps.remove(idx as usize);
    }
}

// ---------------------------------------------------------------------
// Cast history
// ---------------------------------------------------------------------

/// A past cast.
pub struct CastHistoryEntry {
    pub id: String,
    pub receiver: String,
    pub started_at: String,
    pub duration_s: i32,
    pub status: String,
}

/// What a history entry is.
pub ghost struct HistoryView {
    pub id: Seq<char>,
    pub receiver: Seq<char>,
    pub started_at: Seq<char>,
    pub duration_s: i32,
    pub status: Seq<char>,
}

impl View for CastHistoryEntry {
    type V = HistoryView;

    open spec fn view(&self) -> HistoryView {
        HistoryView {
            id: self.id@,
            receiver: self.receiver@,
            started_at: self.started_at@,
            duration_s: self.duration_s,
            status: self.status@,
        }
    }
}

impl CastHistoryEntry {
    /// An independent copy.
    pub fn duplicate(&self) -> (e: CastHistoryEntry)
        ensures
            e@ == self@,
    {
        CastHistoryEntry {
            id: self.id.clone(),
            receiver: self.receiver.clone(),
            started_at: self.started_at.clone(),
            duration_s: self.duration_s,
            status: self.status.clone(),
        }
    }
}

/// The views of history entries.
pub open spec fn history_views(s: Seq<CastHistoryEntry>) -> Seq<HistoryView> {
    s.map_values(|e: CastHistoryEntry| e@)
}

/// The ids of history entries.
pub open spec fn history_ids(s: Seq<HistoryView>) -> Seq<Seq<char>> {
    s.map_values(|e: HistoryView| e.id)
}

/// The history without the entries whose id is `id`.
pub open spec fn history_without(s: Seq<HistoryView>, id: Seq<char>) -> Seq<HistoryView>
    decreases s.len(),
{
    if s.len() == 0 {
        s
    } else {
        let rest = history_without(s.drop_last(), id);
        if s.last().id == id { rest } else { rest.push(s.last()) }
    }
}

fn history_entry(id: &str, receiver: &str, started_at: &str, duration_s: i32, status: &str) -> (e: CastHistoryEntry)
    ensures
        e@ == (HistoryView {
            id: id@,
            receiver: receiver@,
            started_at: started_at@,
            duration_s,
            status: status@,
        }),
{
    CastHistoryEntry {
        id: owned(id),
        receiver: owned(receiver),
        started_at: owned(started_at),
        duration_s,
        status: owned(status),
    }
}

/// The history the app starts with.
pub open spec fn initial_history() -> Seq<HistoryView> {
    seq![
        HistoryView { id: "h1"@, receiver: "Living Room TV"@, started_at: "Today 12:34"@, duration_s: 765, status: "Completed"@ },
        HistoryView { id: "h2"@, receiver: "Bedroom TV"@, started_at: "Yesterday 22:10"@, duration_s: 68, status: "Cancelled"@ },
        HistoryView { id: "h3"@, receiver: "Office Mac"@, started_at: "Yesterday 09:00"@, duration_s: 1920, status: "Completed"@ },
    ]
}

/// The history the app starts with.
pub fn default_history() -> (r: Vec<CastHistoryEntry>)
    ensures
        history_views(r@) == initial_history(),
{
    let mut r: Vec<CastHistoryEntry> = Vec::new();
    r.push(history_entry("h1", "Living Room TV", "Today 12:34", 765, "Completed"));
    r.push(history_entry("h2", "Bedroom TV", "Yesterday 22:10", 68, "Cancelled"));
    r.push(history_entry("h3", "Office Mac", "Yesterday 09:00", 1920, "Completed"));
    proof {
        assert(history_views(r@) =~= initial_history());
    }
    r
}

/// The position of the first history entry with `id`, if any.
fn find_entry(history: &Vec<CastHistoryEntry>, id: &str) -> (r: Option<usize>)
    ensures
        match r {
            Some(i) => i < history.len() && first_key(history_ids(history_views(history@)), id@) == i
                && has_key(history_ids(history_views(history@)), id@),
            None => !has_key(history_ids(history_views(history@)), id@),
        },
{
    let ghost ks = history_ids(history_views(history@));
    let mut i: usize = 0;
    while i < history.len()
        invariant
            i <= history.len(),
            ks == history_ids(history_views(history@)),
            forall|j: int| 0 <= j < i ==> ks[j] != id@,
        decreases history.len() - i,
    {
        if str_eq(history[i].id.as_str(), id) {
            proof { lemma_first_key(ks, id@, i as int); }
            return Some(i);
        }
        i = i + 1;
    }
    None
}

/// Deletes every history entry with `id`.
pub fn delete_history_entry(history: &mut Vec<CastHistoryEntry>, id: &str)
    ensures
        history_views(final(history)@) == history_without(history_views(old(history)@), id@),
{
    let ghost before = history_views(history@);
    let mut kept: Vec<CastHistoryEntry> = Vec::new();
    let mut i: usize = 0;
    while i < history.len()
        invariant
            i <= history.len(),
            before == history_views(history@),
            history_views(kept@) == history_without(before.take(i as int), id@),
        decreases history.len() - i,
    {
        proof {
            assert(before.take(i + 1).drop_last() =~= before.take(i as int));
            assert(before.take(i + 1).last() == history@[i as int]@);
        }
        if !str_eq(history[i].id.as_str(), id) {
            let e = history[i].duplicate();
            let ghost prev = history_views(kept@);
            let ghost ev = e@;
            kept.push(e);
            proof {
                assert(history_views(kept@) =~= prev.push(ev));
            }
        }
        i = i + 1;
    }
    proof {
        assert(before.take(history.len() as int) =~= before);
    }
    *history = kept;
}

/// The first history entry with `id`, opened in the detail page.
pub fn open_history_detail(history: &Vec<CastHistoryEntry>, id: &str) -> (r: Option<CastHistoryEntry>)
    ensures
        match r {
            Some(e) => has_key(history_ids(history_views(history@)), id@)
                && e@ == history_views(history@)[first_key(history_ids(history_views(history@)), id@)],
            None => !has_key(history_ids(history_views(history@)), id@),
        },
{
    match find_entry(history, id) {
        Some(i) => Some(history[i].duplicate()),
        None => None,
    }
}

/// The banner for recasting entry `id`: `Recasting to <receiver>` of the
/// first entry with that id; nothing for an unknown id.
pub fn recast_banner(history: &Vec<CastHistoryEntry>, id: &str) -> (r: Option<String>)
    ensures
        match r {
            Some(t) => has_key(history_ids(history_views(history@)), id@)
                && t@ == "Recasting to "@ + history_views(history@)[first_key(history_ids(history_views(history@)), id@)].receiver,
            None => !has_key(history_ids(history_views(history@)), id@),
        },
{
    match find_entry(history, id) {
        Some(i) => {
            let mut t = owned("Recasting to ");
            push_str(&mut t, history[i].receiver.as_str());
            Some(t)
        },
        None => None,
    }
}

// ---------------------------------------------------------------------
// Network interfaces
// ---------------------------------------------------------------------

/// The kind of a network interface.
#[derive(Clone, Copy, Debug, PartialEq, Eq, Structural)]
pub enum NetworkKind {
    Wifi,
    Cellular,
    Loopback,
}

/// A network interface the sender may use.
pub struct NetworkInterface {
    pub name: String,
    pub kind: NetworkKind,
    pub address_v4: String,
    pub address_v6: String,
    pub enabled: bool,
}

/// What an interface is.
pub ghost struct InterfaceView {
    pub name: Seq<char>,
    pub kind: NetworkKind,
    pub address_v4: Seq<char>,
    pub address_v6: Seq<char>,
    pub enabled: bool,
}

impl View for NetworkInterface {
    type V = InterfaceView;

    open spec fn view(&self) -> InterfaceView {
        InterfaceView {
            name: self.name@,
            kind: self.kind,
            address_v4: self.address_v4@,
            address_v6: self.address_v6@,
            enabled: self.enabled,
        }
    }
}

/// The views of interfaces.
pub open spec fn interface_views(s: Seq<NetworkInterface>) -> Seq<InterfaceView> {
    s.map_values(|i: NetworkInterface| i@)
}

/// The names of interfaces.
pub open spec fn interface_names(s: Seq<InterfaceView>) -> Seq<Seq<char>> {
    s.map_values(|i: InterfaceView| i.name)
}

fn interface(name: &str, kind: NetworkKind, v4: &str, v6: &str, enabled: bool) -> (r: NetworkInterface)
    ensures
        r@ == (InterfaceView { name: name@, kind, address_v4: v4@, address_v6: v6@, enabled }),
{
    NetworkInterface {
        name: owned(name),
        kind,
        address_v4: owned(v4),
        address_v6: owned(v6),
        enabled,
    }
}

/// The interfaces listed before the platform reports its own.
pub open spec fn listed_interfaces() -> Seq<InterfaceView> {
    seq![
        InterfaceView { name: "wlan0"@, kind: NetworkKind::Wifi, address_v4: "192.168.1.42"@, address_v6: "fe80::1234"@, enabled: true },
        InterfaceView { name: "rmnet0"@, kind: NetworkKind::Cellular, address_v4: "10.20.30.40"@, address_v6: ""@, enabled: false },
        InterfaceView { name: "lo"@, kind: NetworkKind::Loopback, address_v4: "127.0.0.1"@, address_v6: "::1"@, enabled: true },
    ]
}

/// The interfaces listed before the platform reports its own.
pub fn enumerate_interfaces() -> (r: Vec<NetworkInterface>)
    ensures
        interface_views(r@) == listed_interfaces(),
{
    let mut r: Vec<NetworkInterface> = Vec::new();
    r.push(interface("wlan0", NetworkKind::Wifi, "192.168.1.42", "fe80::1234", true));
    r.push(interface("rmnet0", NetworkKind::Cellular, "10.20.30.40", "", false));
    r.push(interface("lo", NetworkKind::Loopback, "127.0.0.1", "::1", true));
    proof {
        assert(interface_views(r@) =~= listed_interfaces());
    }
    r
}

/// Switches the first interface named `name` on or off; nothing changes
/// when none has that name.
pub fn set_interface_enabled(list: &mut Vec<NetworkInterface>, name: &str, value: bool)
    ensures
        interface_views(final(list)@) == (if has_key(interface_names(interface_views(old(list)@)), name@) {
            let s = interface_views(old(list)@);
            let i = first_key(interface_names(s), name@);
            s.update(i, InterfaceView { enabled: value, ..s[i] })
        } else {
            interface_views(old(list)@)
        }),
{
    let ghost before = interface_views(list@);
    let ghost ks = interface_names(before);
    let mut i: usize = 0;
    while i < list.len()
        invariant
            i <= list.len(),
            before == interface_views(list@),
            before == interface_views(old(list)@),
            ks == interface_names(before),
            forall|j: int| 0 <= j < i ==> ks[j] != name@,
        decreases list.len() - i,
    {
        if str_eq(list[i].name.as_str(), name) {
            proof { lemma_first_key(ks, name@, i as int); }
            let mut it = list.remove(i);
            it.enabled = value;
            let ghost iv = it@;
            list.insert(i, it);
            proof {
                assert(interface_views(list@) =~= before.update(i as int, iv));
            }
            return;
        }
        i = i + 1;
    }
}

// ---------------------------------------------------------------------
// Actions and messages
// ---------------------------------------------------------------------

/// The address the debug command server binds to.
pub const LEGACY_COMMAND_BIND_ADDR: &'static str = "0.0.0.0:8080";

/// What a custom quick action asks for.
#[derive(Clone, Copy, Debug, PartialEq, Eq, Structural)]
pub enum ActionRequest {
    /// Ask the activity to scan a QR code.
    ScanQr,
    /// Start the command server on [`LEGACY_COMMAND_BIND_ADDR`].
    StartMigrationServer,
    /// Run a migration test by its id.
    RunMigrationTest(crate::command::legacy_tests::MigrationTest),
}

/// What the custom action `id` asks for, if anything.
pub open spec fn action_for(id: Seq<char>) -> Option<ActionRequest> {
    if id == "scan-qr"@ {
        Some(ActionRequest::ScanQr)
    } else if id == "migrated-server"@ {
        Some(ActionRequest::StartMigrationServer)
    } else if id == "test-getinfo"@ {
        Some(ActionRequest::RunMigrationTest(crate::command::legacy_tests::MigrationTest::Getinfo))
    } else if id == "test-crossfade"@ {
        Some(ActionRequest::RunMigrationTest(crate::command::legacy_tests::MigrationTest::Crossfade))
    } else if id == "test-smoke"@ {
        Some(ActionRequest::RunMigrationTest(crate::command::legacy_tests::MigrationTest::Smoke))
    } else {
        None
    }
}

/// What the custom action `id` asks for (see [`action_for`]).
pub fn invoke_action(id: &str) -> (r: Option<ActionRequest>)
    ensures
        r == action_for(id@),
{
    if str_eq(id, "scan-qr") {
        Some(ActionRequest::ScanQr)
    } else if str_eq(id, "migrated-server") {
        Some(ActionRequest::StartMigrationServer)
    } else if str_eq(id, "test-getinfo") {
        Some(ActionRequest::RunMigrationTest(crate::command::legacy_tests::MigrationTest::Getinfo))
    } else if str_eq(id, "test-crossfade") {
        Some(ActionRequest::RunMigrationTest(crate::command::legacy_tests::MigrationTest::Crossfade))
    } else if str_eq(id, "test-smoke") {
        Some(ActionRequest::RunMigrationTest(crate::command::legacy_tests::MigrationTest::Smoke))
    } else {
        None
    }
}

/// The banner after switching Wi-Fi Aware.
pub fn wifi_aware_banner(enabled: bool) -> (s: &'static str)
    ensures
        s@ == (if enabled {
            "Wi-Fi Aware enabled (placeholder — no permission requested)."@
        } else {
            "Wi-Fi Aware disabled."@
        }),
{
    if enabled {
        "Wi-Fi Aware enabled (placeholder — no permission requested)."
    } else {
        "Wi-Fi Aware disabled."
    }
}


// ---------------------------------------------------------------------
// Everything the settings pages own
// ---------------------------------------------------------------------

/// The lists the settings pages edit, with the counters that number new
/// presets and macros.
pub struct SettingsLists {
    pub bar_actions: Vec<QuickAction>,
    pub presets: Vec<BitratePreset>,
    pub next_preset_id: u64,
    pub history: Vec<CastHistoryEntry>,
    pub macros: Vec<Macro>,
    pub next_macro_id: u64,
}

/// The factory control bar, with the debug additions in a debug build.
pub open spec fn bar_for(include_debug: bool) -> Seq<QuickActionView> {
    if include_debug { factory_actions() + debug_actions() } else { factory_actions() }
}

impl SettingsLists {
    /// The lists the app starts with: the factory bar and presets, the
    /// sample history, no macros, both counters at zero.
    pub fn new(include_debug: bool) -> (l: SettingsLists)
        ensures
            action_views(l.bar_actions@) == bar_for(include_debug),
            preset_views(l.presets@) == factory_presets(),
            l.next_preset_id == 0,
            history_views(l.history@) == initial_history(),
            l.macros@.len() == 0,
            l.next_macro_id == 0,
    {
        SettingsLists {
            bar_actions: default_quick_actions(include_debug),
            presets: default_presets(),
            next_preset_id: 0,
            history: default_history(),
            macros: Vec::new(),
            next_macro_id: 0,
        }
    }

    /// Resets every list to factory state: the factory bar and presets, no
    /// history, no macros, and both counters back to zero so that new ids
    /// start over.
    pub fn reset(&mut self, include_debug: bool)
        ensures
            action_views(final(self).bar_actions@) == bar_for(include_debug),
            preset_views(final(self).presets@) == factory_presets(),
            final(self).next_preset_id == 0,
            final(self).history@.len() == 0,
            final(self).macros@.len() == 0,
            final(self).next_macro_id == 0,
    {
        self.bar_actions = default_quick_actions(include_debug);
        self.presets = default_presets();
        self.next_preset_id = 0;
        self.history = Vec::new();
        self.macros = Vec::new();
        self.next_macro_id = 0;
    }
}

} // verus!
