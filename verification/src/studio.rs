//! The editor's state and its editing commands: selection, undo / redo,
//! clipboard, adding and deleting objects, the Blender-style grab / scale /
//! rotate modes, and which keyboard shortcuts trigger which commands.

use vstd::prelude::*;
use vstd::string::StringExecFns;
use crate::history::{
    History, HistoryModel, HISTORY_LIMIT, law_discard_after_record, law_step_forward_after_step_back,
    model_discard_last, model_record, model_step_back, model_step_forward, model_wf,
};
use crate::ids::{is_clock_id, new_id};
use crate::render::{quality_label, RenderQuality};
use crate::scene::{
    animations_without, animations_without_object, first_with_id, has_object, lemma_first_with_id,
    kind_eq, lemma_kind_eq_trans, lemma_scene_eq_sym_trans, lookup, obj_type_name, object_eq, scene_eq,
    objects_without, same_scene_settings, AnimEntry, AnimType, Appearance, ManimObject, ObjType, RateFunc,
    Scene,
};
use crate::text::{decimal, law_decimal_injective, push_decimal};

verus! {

/// What a drag on a timeline block changes.
#[derive(Clone, Debug, PartialEq, Eq, Structural)]
pub enum TlDragMode {
    Move,
    ResizeLeft,
    ResizeRight,
}

/// Blender-style interaction modes.
#[derive(Clone, Debug, PartialEq, Eq, Structural)]
pub enum InteractionMode {
    Normal,
    Grab,
    Scale,
    Rotate,
}

/// The axis a grab, scale or rotate is held to.
#[derive(Clone, Debug, PartialEq, Eq, Structural)]
pub enum AxisConstraint {
    /// Not held to an axis.
    Free,
    X,
    Y,
    Z,
}

/// The outcome of the last render.
#[derive(Clone, Debug)]
pub enum RenderStatus {
    Idle,
    Done(String),
    Error(String),
}

/// The render quality chosen in the menus.
#[derive(Clone, PartialEq, Eq, Structural, Debug)]
pub enum RenderQualityOpt {
    Low,
    Medium,
    High,
    Ultra,
}

pub open spec fn quality_opt_label(q: RenderQualityOpt) -> Seq<char> {
    match q {
        RenderQualityOpt::Low => "480p  (Low)"@,
        RenderQualityOpt::Medium => "720p  (Medium)"@,
        RenderQualityOpt::High => "1080p (High)"@,
        RenderQualityOpt::Ultra => "4K    (Ultra)"@,
    }
}

pub open spec fn quality_opt_renderer(q: RenderQualityOpt) -> RenderQuality {
    match q {
        RenderQualityOpt::Low => RenderQuality::Low,
        RenderQualityOpt::Medium => RenderQuality::Medium,
        RenderQualityOpt::High => RenderQuality::High,
        RenderQualityOpt::Ultra => RenderQuality::Ultra,
    }
}

/// Rendering uses the quality the menu shows: the renderer's quality for an
/// option has that option's label, and each option gives a different quality.
pub proof fn law_render_quality_matches_menu(q: RenderQualityOpt, p: RenderQualityOpt)
    ensures
        quality_label(quality_opt_renderer(q)) == quality_opt_label(q),
        (q != p) ==> (quality_opt_renderer(q) != quality_opt_renderer(p)),
{
}

impl RenderQualityOpt {
    pub fn label(&self) -> (r: &'static str)
        ensures
            r@ == quality_opt_label(*self),
    {
        match self {
            RenderQualityOpt::Low => "480p  (Low)",
            RenderQualityOpt::Medium => "720p  (Medium)",
            RenderQualityOpt::High => "1080p (High)",
            RenderQualityOpt::Ultra => "4K    (Ultra)",
        }
    }

    /// The renderer's quality of the same name.
    pub fn to_renderer(&self) -> (r: RenderQuality)
        ensures
            r == quality_opt_renderer(*self),
    {
        match self {
            RenderQualityOpt::Low => RenderQuality::Low,
            RenderQualityOpt::Medium => RenderQuality::Medium,
            RenderQualityOpt::High => RenderQuality::High,
            RenderQualityOpt::Ultra => RenderQuality::Ultra,
        }
    }
}

/// The editor's state.
pub struct ManimStudio<N> {
    pub scene: Scene<N>,
    pub selected_obj: Option<String>,
    pub selected_anim: Option<String>,
    pub interaction_mode: InteractionMode,
    pub axis_constraint: AxisConstraint,
    pub mode_origin_pos: [N; 3],
    pub mode_origin_scale: N,
    pub mode_origin_rotation: N,
    pub history: History<Scene<N>>,
    pub clipboard: Option<ManimObject<N>>,
    pub is_playing: bool,
    pub render_quality: RenderQualityOpt,
    pub render_status: RenderStatus,
    pub show_error_log: bool,
}

// ─── What each command does ─────────────────────────────────────────────────

/// The two states agree on everything but the scene, the history and the selection.
pub open spec fn same_settings<N: Copy>(a: ManimStudio<N>, b: ManimStudio<N>) -> bool {
    &&& a.interaction_mode == b.interaction_mode
    &&& a.axis_constraint == b.axis_constraint
    &&& a.mode_origin_pos == b.mode_origin_pos
    &&& a.mode_origin_scale == b.mode_origin_scale
    &&& a.mode_origin_rotation == b.mode_origin_rotation
    &&& a.clipboard == b.clipboard
    &&& a.is_playing == b.is_playing
    &&& a.render_quality == b.render_quality
    &&& a.render_status == b.render_status
    &&& a.show_error_log == b.show_error_log
}

/// The two states agree on everything but the scene and the history.
pub open spec fn same_editor_state<N: Copy>(a: ManimStudio<N>, b: ManimStudio<N>) -> bool {
    &&& same_settings(a, b)
    &&& a.selected_obj == b.selected_obj
    &&& a.selected_anim == b.selected_anim
}

/// `after` is `before` with a copy of `scene` (equal to it field by field) recorded.
pub open spec fn recorded_copy<N: Copy>(before: HistoryModel<Scene<N>>, after: HistoryModel<Scene<N>>, scene: Scene<N>) -> bool {
    exists|c: Scene<N>| scene_eq(scene, c) && after == model_record(before, c)
}

/// The object the selection names, if there is one.
pub open spec fn selected_object<N: Copy>(s: ManimStudio<N>) -> Option<ManimObject<N>> {
    match s.selected_obj {
        Some(id) => lookup(s.scene.objects@, id@),
        None => None,
    }
}

/// `push_history`: a copy of the scene is recorded; nothing else changes.
pub open spec fn push_history_post<N: Copy>(pre: ManimStudio<N>, post: ManimStudio<N>) -> bool {
    &&& recorded_copy(pre.history.model(), post.history.model(), pre.scene)
    &&& post.scene == pre.scene
    &&& same_editor_state(pre, post)
}

/// `undo`: with nothing before the cursor, nothing changes; else the history
/// steps back (saving a copy of the scene when at the end), the scene becomes a
/// copy of the snapshot now under the cursor, and the selection is cleared.
pub open spec fn undo_post<N: Copy>(pre: ManimStudio<N>, post: ManimStudio<N>) -> bool {
    if pre.history.model().cursor == 0 {
        post == pre
    } else {
        &&& exists|c: Scene<N>| scene_eq(pre.scene, c) && post.history.model() == model_step_back(pre.history.model(), c)
        &&& scene_eq(post.history.model().entries[post.history.model().cursor], post.scene)
        &&& post.selected_obj is None
        &&& post.selected_anim is None
        &&& same_settings(pre, post)
    }
}

/// `redo`: with no snapshot after the cursor, nothing changes; else the history
/// steps forward, the scene becomes a copy of the snapshot under the cursor, and
/// the selection is cleared.
pub open spec fn redo_post<N: Copy>(pre: ManimStudio<N>, post: ManimStudio<N>) -> bool {
    if pre.history.model().cursor + 1 >= pre.history.model().entries.len() {
        post == pre
    } else {
        &&& post.history.model() == model_step_forward(pre.history.model())
        &&& scene_eq(post.history.model().entries[post.history.model().cursor], post.scene)
        &&& post.selected_obj is None
        &&& post.selected_anim is None
        &&& same_settings(pre, post)
    }
}

/// `copy_selected`: the clipboard gets a copy of the selected object, if any.
pub open spec fn copy_post<N: Copy>(pre: ManimStudio<N>, post: ManimStudio<N>) -> bool {
    &&& match selected_object(pre) {
        Some(o) => post.clipboard matches Some(c) && object_eq(o, c),
        None => post.clipboard == pre.clipboard,
    }
    &&& post.scene == pre.scene
    &&& post.history.model() == pre.history.model()
    &&& post.selected_obj == pre.selected_obj
    &&& post.selected_anim == pre.selected_anim
    &&& post.interaction_mode == pre.interaction_mode
    &&& post.axis_constraint == pre.axis_constraint
    &&& post.mode_origin_pos == pre.mode_origin_pos
    &&& post.mode_origin_scale == pre.mode_origin_scale
    &&& post.mode_origin_rotation == pre.mode_origin_rotation
    &&& post.is_playing == pre.is_playing
    &&& post.render_quality == pre.render_quality
    &&& post.render_status == pre.render_status
    &&& post.show_error_log == pre.show_error_log
}

/// The animations left once the selected object's and the selected animation are gone.
pub open spec fn animations_after_delete<N: Copy>(
    anims: Seq<AnimEntry<N>>,
    selected_obj: Option<String>,
    selected_anim: Option<String>,
) -> Seq<AnimEntry<N>> {
    let a1 = match selected_obj {
        Some(id) => animations_without_object(anims, id@),
        None => anims,
    };
    match selected_anim {
        Some(id) => animations_without(a1, id@),
        None => a1,
    }
}

/// `delete_selected`: when something is selected a copy of the scene is
/// recorded; the selected object goes with all its animations, the selected
/// animation goes, and the selection is cleared.
pub open spec fn delete_post<N: Copy>(pre: ManimStudio<N>, post: ManimStudio<N>) -> bool {
    &&& if pre.selected_obj is Some || pre.selected_anim is Some {
        recorded_copy(pre.history.model(), post.history.model(), pre.scene)
    } else {
        post.history.model() == pre.history.model()
    }
    &&& post.scene.objects@ == match pre.selected_obj {
        Some(id) => objects_without(pre.scene.objects@, id@),
        None => pre.scene.objects@,
    }
    &&& post.scene.animations@ == animations_after_delete(
        pre.scene.animations@,
        pre.selected_obj,
        pre.selected_anim,
    )
    &&& same_scene_settings(pre.scene, post.scene)
    &&& post.selected_obj is None
    &&& post.selected_anim is None
    &&& same_settings(pre, post)
}

/// `added` is a copy of `source` with a fresh identifier, `suffix` after the
/// name, and the position that `shift` gives for the source's; every other
/// field is the source's.
pub open spec fn copy_with<N: Copy, F: Fn([N; 3]) -> [N; 3]>(
    source: ManimObject<N>,
    added: ManimObject<N>,
    suffix: Seq<char>,
    shift: F,
) -> bool {
    &&& is_clock_id(added.id@)
    &&& added.name@ == source.name@ + suffix
    &&& call_ensures(shift, (source.position,), added.position)
    &&& kind_eq(source.object_type, added.object_type)
    &&& added.scale == source.scale
    &&& added.rotation == source.rotation
    &&& added.color == source.color
    &&& added.opacity == source.opacity
    &&& added.fill_opacity == source.fill_opacity
    &&& added.stroke_width == source.stroke_width
    &&& added.visible == source.visible
}

/// `after` is `before` with a copy of `source` added at the end: the copy has a
/// fresh identifier, `suffix` after the name, and the position `shift` gives for
/// the source's; a copy of `before`'s scene is recorded and the copy is selected.
pub open spec fn added_copy<N: Copy, F: Fn([N; 3]) -> [N; 3]>(
    before: ManimStudio<N>,
    after: ManimStudio<N>,
    source: ManimObject<N>,
    suffix: Seq<char>,
    shift: F,
) -> bool {
    &&& exists|added: ManimObject<N>| {
        &&& copy_with(source, added, suffix, shift)
        &&& after.scene.objects@ == before.scene.objects@.push(added)
        &&& after.selected_obj matches Some(id) && id@ == added.id@
    }
    &&& recorded_copy(before.history.model(), after.history.model(), before.scene)
    &&& after.scene.animations@ == before.scene.animations@
    &&& same_scene_settings(before.scene, after.scene)
    &&& after.selected_anim == before.selected_anim
    &&& same_settings(before, after)
}

/// `paste`: with an empty clipboard nothing changes; else a copy of the clipboard
/// object is added as `added_copy` says, with `_paste` after its name.
pub open spec fn paste_post<N: Copy, F: Fn([N; 3]) -> [N; 3]>(pre: ManimStudio<N>, post: ManimStudio<N>, shift: F) -> bool {
    match pre.clipboard {
        None => post == pre,
        Some(clip) => added_copy(pre, post, clip, "_paste"@, shift),
    }
}

/// `duplicate_selected`: when the selection names an object, a copy of it is
/// added as `added_copy` says, with `_copy` after its name; else nothing changes.
pub open spec fn duplicate_post<N: Copy, F: Fn([N; 3]) -> [N; 3]>(pre: ManimStudio<N>, post: ManimStudio<N>, shift: F) -> bool {
    match selected_object(pre) {
        None => post == pre,
        Some(o) => added_copy(pre, post, o, "_copy"@, shift),
    }
}

/// How many objects of `objs` are of the kind named `kind`.
pub open spec fn count_of_kind<N: Copy>(objs: Seq<ManimObject<N>>, kind: Seq<char>) -> nat
    decreases objs.len(),
{
    if objs.len() == 0 {
        0
    } else {
        count_of_kind(objs.drop_last(), kind) + if obj_type_name(objs.last().object_type) == kind { 1nat } else { 0nat }
    }
}

/// Counting objects by kind: an object added at the end counts once more for
/// its own kind and not for any other, and the count is the number of
/// objects of that kind.
pub proof fn law_count_of_kind_counts<N: Copy>(objs: Seq<ManimObject<N>>, o: ManimObject<N>, kind: Seq<char>)
    ensures
        count_of_kind(objs.push(o), kind) == count_of_kind(objs, kind) + if obj_type_name(o.object_type) == kind {
            1int
        } else {
            0int
        },
        count_of_kind(objs, kind) == objs.filter(|x: ManimObject<N>| obj_type_name(x.object_type) == kind).len(),
    decreases objs.len(),
{
    assert(objs.push(o).drop_last() =~= objs);
    reveal(Seq::filter);
    if objs.len() > 0 {
        law_count_of_kind_counts(objs.drop_last(), objs.last(), kind);
    }
}

/// The name a new object of kind `t` gets: the kind, `_`, and one more than the
/// number of objects of that kind already in the scene.
pub open spec fn fresh_object_name<N: Copy>(objs: Seq<ManimObject<N>>, t: ObjType<N>) -> Seq<char> {
    obj_type_name(t) + "_"@ + decimal(count_of_kind(objs, obj_type_name(t)) + 1)
}

/// `add_object`: a copy of the scene is recorded; a new object of kind `t` with
/// the look `look` and the name `fresh_object_name` is added and selected, and
/// a `Create` animation of it, starting at the playhead, is added.
pub open spec fn add_object_post<N: Copy>(
    pre: ManimStudio<N>,
    post: ManimStudio<N>,
    t: ObjType<N>,
    look: Appearance<N>,
    create_duration: N,
) -> bool {
    &&& recorded_copy(pre.history.model(), post.history.model(), pre.scene)
    &&& exists|o: ManimObject<N>, a: AnimEntry<N>| {
        &&& is_clock_id(o.id@)
        &&& o.name@ == fresh_object_name(pre.scene.objects@, t)
        &&& o.object_type == t
        &&& o.position == look.position
        &&& o.scale == look.scale
        &&& o.rotation == look.rotation
        &&& o.color == look.color
        &&& o.opacity == look.opacity
        &&& o.fill_opacity == look.fill_opacity
        &&& o.stroke_width == look.stroke_width
        &&& o.visible
        &&& is_clock_id(a.id@)
        &&& a.object_id@ == o.id@
        &&& a.anim_type == AnimType::<N>::Create
        &&& a.start_time == pre.scene.timeline.current_time
        &&& a.duration == create_duration
        &&& a.rate_func == RateFunc::Smooth
        &&& a.lane == 0
        &&& post.scene.objects@ == pre.scene.objects@.push(o)
        &&& post.scene.animations@ == pre.scene.animations@.push(a)
        &&& post.selected_obj matches Some(id) && id@ == o.id@
    }
    &&& same_scene_settings(pre.scene, post.scene)
    &&& post.selected_anim == pre.selected_anim
    &&& same_settings(pre, post)
}

/// `enter_mode`: when the selection names an object, a copy of the scene is
/// recorded, the object's position, scale and rotation are kept as the mode's
/// origin, the axis is freed and the mode is entered; else nothing changes.
pub open spec fn enter_mode_post<N: Copy>(pre: ManimStudio<N>, post: ManimStudio<N>, mode: InteractionMode) -> bool {
    match selected_object(pre) {
        None => post == pre,
        Some(o) => {
            &&& recorded_copy(pre.history.model(), post.history.model(), pre.scene)
            &&& post.scene == pre.scene
            &&& post.mode_origin_pos == o.position
            &&& post.mode_origin_scale == o.scale
            &&& post.mode_origin_rotation == o.rotation
            &&& post.axis_constraint == AxisConstraint::Free
            &&& post.interaction_mode == mode
            &&& post.selected_obj == pre.selected_obj
            &&& post.selected_anim == pre.selected_anim
            &&& post.clipboard == pre.clipboard
            &&& post.is_playing == pre.is_playing
            &&& post.render_quality == pre.render_quality
            &&& post.render_status == pre.render_status
            &&& post.show_error_log == pre.show_error_log
        },
    }
}

/// `o` with position `p`, scale `sc` and rotation `r`.
pub open spec fn with_transform<N: Copy>(o: ManimObject<N>, p: [N; 3], sc: N, r: N) -> ManimObject<N> {
    ManimObject { position: p, scale: sc, rotation: r, ..o }
}

/// The object `o` put back to the mode's origin.
pub open spec fn restored<N: Copy>(o: ManimObject<N>, s: ManimStudio<N>) -> ManimObject<N> {
    with_transform(o, s.mode_origin_pos, s.mode_origin_scale, s.mode_origin_rotation)
}

/// `cancel_mode`: the selected object, if any, is put back to the mode's origin,
/// the mode and axis are reset, and the history takes back its last record.
pub open spec fn cancel_mode_post<N: Copy>(pre: ManimStudio<N>, post: ManimStudio<N>) -> bool {
    &&& post.scene.objects@ == match pre.selected_obj {
        Some(id) => if has_object(pre.scene.objects@, id@) {
            let i = first_with_id(pre.scene.objects@, id@);
            pre.scene.objects@.update(i, restored(pre.scene.objects@[i], pre))
        } else {
            pre.scene.objects@
        },
        None => pre.scene.objects@,
    }
    &&& post.scene.animations@ == pre.scene.animations@
    &&& same_scene_settings(pre.scene, post.scene)
    &&& post.history.model() == model_discard_last(pre.history.model())
    &&& post.interaction_mode == InteractionMode::Normal
    &&& post.axis_constraint == AxisConstraint::Free
    &&& post.selected_obj == pre.selected_obj
    &&& post.selected_anim == pre.selected_anim
    &&& post.mode_origin_pos == pre.mode_origin_pos
    &&& post.mode_origin_scale == pre.mode_origin_scale
    &&& post.mode_origin_rotation == pre.mode_origin_rotation
    &&& post.clipboard == pre.clipboard
    &&& post.is_playing == pre.is_playing
    &&& post.render_quality == pre.render_quality
    &&& post.render_status == pre.render_status
    &&& post.show_error_log == pre.show_error_log
}

/// The axis after pressing the key for `axis`: pressing the held axis frees it.
pub open spec fn toggled_axis(current: AxisConstraint, axis: AxisConstraint) -> AxisConstraint {
    if current == axis { AxisConstraint::Free } else { axis }
}

impl<N: Copy> ManimStudio<N> {
    /// The history is well formed.
    pub open spec fn wf(self) -> bool {
        self.history.wf()
    }

    /// An editor on `scene` with nothing selected, no history, an empty
    /// clipboard, the normal mode and the medium render quality.
    pub fn new(scene: Scene<N>, origin_pos: [N; 3], origin_scale: N, origin_rotation: N) -> (r: Self)
        ensures
            r.wf(),
            r.scene == scene,
            r.selected_obj is None,
            r.selected_anim is None,
            r.interaction_mode == InteractionMode::Normal,
            r.axis_constraint == AxisConstraint::Free,
            r.mode_origin_pos == origin_pos,
            r.mode_origin_scale == origin_scale,
            r.mode_origin_rotation == origin_rotation,
            r.history.model().entries.len() == 0,
            r.history.model().cursor == 0,
            r.clipboard is None,
            !r.is_playing,
            r.render_quality == RenderQualityOpt::Medium,
            r.render_status is Idle,
            !r.show_error_log,
    {
        ManimStudio {
            scene,
            selected_obj: None,
            selected_anim: None,
            interaction_mode: InteractionMode::Normal,
            axis_constraint: AxisConstraint::Free,
            mode_origin_pos: origin_pos,
            mode_origin_scale: origin_scale,
            mode_origin_rotation: origin_rotation,
            history: History::new(),
            clipboard: None,
            is_playing: false,
            render_quality: RenderQualityOpt::Medium,
            render_status: RenderStatus::Idle,
            show_error_log: false,
        }
    }

    /// The selected object, if the selection names one.
    pub fn sel_obj(&self) -> (r: Option<&ManimObject<N>>)
        ensures
            match r {
                Some(o) => selected_object(*self) == Some(*o),
                None => selected_object(*self) is None,
            },
    {
        match &self.selected_obj {
            Some(id) => self.scene.get_object(id.as_str()),
            None => None,
        }
    }

    /// Snapshot the current scene for undo. Call before any destructive edit.
    pub fn push_history(&mut self)
        requires
            old(self).wf(),
        ensures
            final(self).wf(),
            push_history_post(*old(self), *final(self)),
    {
        let snapshot = self.scene.deep_copy();
        self.history.record(snapshot);
    }

    pub fn undo(&mut self)
        requires
            old(self).wf(),
        ensures
            final(self).wf(),
            undo_post(*old(self), *final(self)),
    {
        if self.history.cursor() == 0 {
            return;
        }
        let ghost pre = *self;
        let current = self.scene.deep_copy();
        let back = self.history.step_back(current);
        match back {
            Some(s) => {
                self.scene = s.deep_copy();
            },
            None => {},
        }
        self.selected_obj = None;
        self.selected_anim = None;
    }

    pub fn redo(&mut self)
        requires
            old(self).wf(),
        ensures
            final(self).wf(),
            redo_post(*old(self), *final(self)),
    {
        if self.history.cursor() + 1 >= self.history.len() {
            return;
        }
        let forward = self.history.step_forward();
        match forward {
            Some(s) => {
                self.scene = s.deep_copy();
            },
            None => {},
        }
        self.selected_obj = None;
        self.selected_anim = None;
    }

    pub fn copy_selected(&mut self)
        ensures
            copy_post(*old(self), *final(self)),
    {
        let copied = match self.sel_obj() {
            Some(o) => Some(o.deep_copy()),
            None => None,
        };
        if let Some(obj) = copied {
            self.clipboard = Some(obj);
        }
    }

    pub fn delete_selected(&mut self)
        requires
            old(self).wf(),
        ensures
            final(self).wf(),
            delete_post(*old(self), *final(self)),
    {
        if self.selected_obj.is_some() || self.selected_anim.is_some() {
            self.push_history();
        }
        if let Some(id) = self.selected_obj.take() {
            self.scene.remove_object(id.as_str());
        }
        if let Some(id) = self.selected_anim.take() {
            self.scene.remove_animation(id.as_str());
        }
    }

    /// Copy, then record, then delete, as the three commands do one after the other.
    pub fn cut_selected(&mut self)
        requires
            old(self).wf(),
        ensures
            final(self).wf(),
            exists|s1: ManimStudio<N>, s2: ManimStudio<N>| {
                &&& copy_post(*old(self), s1)
                &&& push_history_post(s1, s2)
                &&& delete_post(s2, *final(self))
            },
    {
        let ghost s0 = *self;
        self.copy_selected();
        let ghost s1 = *self;
        self.push_history();
        let ghost s2 = *self;
        self.delete_selected();
        assert(copy_post(s0, s1) && push_history_post(s1, s2) && delete_post(s2, *self));
    }

    /// Adds `obj` with a fresh identifier, `suffix` after its name and the
    /// position `shift` gives, after recording the scene, and selects it.
    fn add_copy<F: Fn([N; 3]) -> [N; 3]>(&mut self, obj: ManimObject<N>, suffix: &str, shift: F)
        requires
            old(self).wf(),
            forall|p: [N; 3]| call_requires(shift, (p,)),
        ensures
            final(self).wf(),
            exists|added: ManimObject<N>| {
                &&& copy_with(obj, added, suffix@, shift)
                &&& final(self).scene.objects@ == old(self).scene.objects@.push(added)
                &&& final(self).selected_obj matches Some(id) && id@ == added.id@
            },
            recorded_copy(old(self).history.model(), final(self).history.model(), old(self).scene),
            final(self).scene.animations@ == old(self).scene.animations@,
            same_scene_settings(old(self).scene, final(self).scene),
            final(self).selected_anim == old(self).selected_anim,
            same_settings(*old(self), *final(self)),
    {
        let ghost source = obj;
        let mut obj = obj;
        self.push_history();
        obj.id = new_id();
        obj.name.append(suffix);
        obj.position = shift(obj.position);
        let id = obj.id.clone();
        assert(copy_with(source, obj, suffix@, shift));
        self.scene.add_object(obj);
        self.selected_obj = Some(id);
    }

    /// Adds a copy of the clipboard object, named with `_paste` after it and
    /// placed where `shift` puts it, and selects it.
    pub fn paste<F: Fn([N; 3]) -> [N; 3]>(&mut self, shift: F)
        requires
            old(self).wf(),
            forall|p: [N; 3]| call_requires(shift, (p,)),
        ensures
            final(self).wf(),
            paste_post(*old(self), *final(self), shift),
    {
        let clip = match &self.clipboard {
            Some(o) => Some(o.deep_copy()),
            None => None,
        };
        if let Some(obj) = clip {
            let ghost c = obj;
            self.add_copy(obj, "_paste", shift);
            proof {
                let added = choose|added: ManimObject<N>| {
                    &&& copy_with(c, added, "_paste"@, shift)
                    &&& self.scene.objects@ == old(self).scene.objects@.push(added)
                    &&& self.selected_obj matches Some(id) && id@ == added.id@
                };
                lemma_copy_of_copy(old(self).clipboard.unwrap(), c, added, "_paste"@, shift);
            }
        }
    }

    /// Adds a copy of the selected object, named with `_copy` after it and
    /// placed where `shift` puts it, and selects it.
    pub fn duplicate_selected<F: Fn([N; 3]) -> [N; 3]>(&mut self, shift: F)
        requires
            old(self).wf(),
            forall|p: [N; 3]| call_requires(shift, (p,)),
        ensures
            final(self).wf(),
            duplicate_post(*old(self), *final(self), shift),
    {
        let found = match self.sel_obj() {
            Some(o) => Some(o.deep_copy()),
            None => None,
        };
        if let Some(obj) = found {
            let ghost c = obj;
            self.add_copy(obj, "_copy", shift);
            proof {
                let added = choose|added: ManimObject<N>| {
                    &&& copy_with(c, added, "_copy"@, shift)
                    &&& self.scene.objects@ == old(self).scene.objects@.push(added)
                    &&& self.selected_obj matches Some(id) && id@ == added.id@
                };
                lemma_copy_of_copy(selected_object(*old(self)).unwrap(), c, added, "_copy"@, shift);
            }
        }
    }

    /// How many objects of the scene are of the kind named `kind`.
    fn count_kind(&self, kind: &str) -> (r: usize)
        ensures
            r == count_of_kind(self.scene.objects@, kind@),
    {
        let mut count: usize = 0;
        let mut i: usize = 0;
        while i < self.scene.objects.len()
            invariant
                i <= self.scene.objects@.len(),
                count == count_of_kind(self.scene.objects@.take(i as int), kind@),
                count <= i,
            decreases self.scene.objects.len() - i,
        {
            assert(self.scene.objects@.take(i + 1).drop_last() =~= self.scene.objects@.take(i as int));
            if self.scene.objects[i].type_label().eq(kind) {
                count = count + 1;
            }
            i += 1;
        }
        assert(self.scene.objects@.take(i as int) =~= self.scene.objects@);
        count
    }

    /// Adds an object of kind `obj_type` with the look `look`, named after its
    /// kind and how many of that kind there are, selects it, and adds a
    /// `Create` animation of it at the playhead lasting `create_duration`.
    pub fn add_object(&mut self, obj_type: ObjType<N>, look: Appearance<N>, create_duration: N)
        requires
            old(self).wf(),
        ensures
            final(self).wf(),
            add_object_post(*old(self), *final(self), obj_type, look, create_duration),
    {
        self.push_history();
        let kind = obj_type.name();
        let count = self.count_kind(kind);
        let mut name = String::from_str(kind);
        name.append("_");
        push_decimal(&mut name, count as u128 + 1);
        let obj = ManimObject::new(name.as_str(), obj_type, look);
        let id = obj.id.clone();
        self.scene.add_object(obj);
        self.selected_obj = Some(id.clone());
        let start = self.scene.timeline.current_time;
        let create = AnimEntry::new(id.as_str(), AnimType::Create, start, create_duration);
        self.scene.animations.push(create);
    }

    /// Enter a Grab/Scale/Rotate mode for the currently selected object.
    pub fn enter_mode(&mut self, mode: InteractionMode)
        requires
            old(self).wf(),
        ensures
            final(self).wf(),
            enter_mode_post(*old(self), *final(self), mode),
    {
        let snapshot = match self.sel_obj() {
            Some(obj) => Some((obj.position, obj.scale, obj.rotation)),
            None => None,
        };
        if let Some((pos, scale, rot)) = snapshot {
            self.push_history();
            self.mode_origin_pos = pos;
            self.mode_origin_scale = scale;
            self.mode_origin_rotation = rot;
            self.axis_constraint = AxisConstraint::Free;
            self.interaction_mode = mode;
        }
    }

    /// Confirm the current transformation.
    pub fn confirm_mode(&mut self)
        ensures
            final(self).interaction_mode == InteractionMode::Normal,
            final(self).axis_constraint == AxisConstraint::Free,
            final(self).scene == old(self).scene,
            final(self).history == old(self).history,
            final(self).selected_obj == old(self).selected_obj,
            final(self).selected_anim == old(self).selected_anim,
            final(self).mode_origin_pos == old(self).mode_origin_pos,
            final(self).mode_origin_scale == old(self).mode_origin_scale,
            final(self).mode_origin_rotation == old(self).mode_origin_rotation,
            final(self).clipboard == old(self).clipboard,
            final(self).is_playing == old(self).is_playing,
            final(self).render_quality == old(self).render_quality,
            final(self).render_status == old(self).render_status,
            final(self).show_error_log == old(self).show_error_log,
    {
        self.interaction_mode = InteractionMode::Normal;
        self.axis_constraint = AxisConstraint::Free;
    }

    /// Cancel the current transformation: the object gets back the position,
    /// scale and rotation it had when the mode began.
    pub fn cancel_mode(&mut self)
        requires
            old(self).wf(),
        ensures
            final(self).wf(),
            cancel_mode_post(*old(self), *final(self)),
    {
        let sel = self.selected_obj.clone();
        if let Some(id) = sel {
            let pos = self.mode_origin_pos;
            let scale = self.mode_origin_scale;
            let rot = self.mode_origin_rotation;
            if let Some(obj) = self.scene.get_object_mut(id.as_str()) {
                obj.position = pos;
                obj.scale = scale;
                obj.rotation = rot;
            }
        }
        self.interaction_mode = InteractionMode::Normal;
        self.axis_constraint = AxisConstraint::Free;
        // Revert the snapshot that entering the mode recorded, keeping the selection.
        self.history.discard_last();
    }

    /// The axis key for `axis` was pressed during a mode: hold to that axis,
    /// or free the axis when it was already held.
    pub fn toggle_axis(&mut self, axis: AxisConstraint)
        ensures
            final(self).axis_constraint == toggled_axis(old(self).axis_constraint, axis),
            final(self).interaction_mode == old(self).interaction_mode,
            final(self).scene == old(self).scene,
            final(self).history == old(self).history,
            final(self).selected_obj == old(self).selected_obj,
            final(self).selected_anim == old(self).selected_anim,
            final(self).mode_origin_pos == old(self).mode_origin_pos,
            final(self).mode_origin_scale == old(self).mode_origin_scale,
            final(self).mode_origin_rotation == old(self).mode_origin_rotation,
            final(self).clipboard == old(self).clipboard,
            final(self).is_playing == old(self).is_playing,
            final(self).render_quality == old(self).render_quality,
            final(self).render_status == old(self).render_status,
            final(self).show_error_log == old(self).show_error_log,
    {
        self.axis_constraint = if self.axis_constraint == axis { AxisConstraint::Free } else { axis };
    }

    /// Set the scene's camera angles (for 3D mode).
    pub fn set_view_preset(&mut self, phi: N, theta: N)
        ensures
            final(self).scene.camera_phi == phi,
            final(self).scene.camera_theta == theta,
            final(self).scene.objects == old(self).scene.objects,
            final(self).scene.animations == old(self).scene.animations,
            final(self).scene.name == old(self).scene.name,
            final(self).scene.timeline == old(self).scene.timeline,
            final(self).scene.bg_color == old(self).scene.bg_color,
            final(self).scene.is_3d == old(self).scene.is_3d,
            final(self).scene.require_latex == old(self).scene.require_latex,
            final(self).scene.scene_type == old(self).scene.scene_type,
            final(self).history == old(self).history,
            same_editor_state(*old(self), *final(self)),
    {
        self.scene.camera_phi = phi;
        self.scene.camera_theta = theta;
    }

    /// A click on object `id` in the list: selects it, or clears the selection
    /// when it was the selected one.
    pub fn select_object_toggle(&mut self, id: &str)
        ensures
            match old(self).selected_obj {
                Some(cur) => if cur@ == id@ {
                    final(self).selected_obj is None
                } else {
                    final(self).selected_obj matches Some(new) && new@ == id@
                },
                None => final(self).selected_obj matches Some(new) && new@ == id@,
            },
            final(self).scene == old(self).scene,
            final(self).history == old(self).history,
            final(self).selected_anim == old(self).selected_anim,
            same_settings(*old(self), *final(self)),
    {
        let is_sel = match &self.selected_obj {
            Some(cur) => cur.as_str().eq(id),
            None => false,
        };
        self.selected_obj = if is_sel { None } else { Some(String::from_str(id)) };
    }

    /// Deletes object `id` with its animations, and clears the selection when
    /// it named that object.
    pub fn delete_object(&mut self, id: &str)
        ensures
            final(self).scene.objects@ == objects_without(old(self).scene.objects@, id@),
            final(self).scene.animations@ == animations_without_object(old(self).scene.animations@, id@),
            same_scene_settings(old(self).scene, final(self).scene),
            final(self).selected_obj == match old(self).selected_obj {
                Some(cur) => if cur@ == id@ { None } else { Some(cur) },
                None => None,
            },
            final(self).history == old(self).history,
            final(self).selected_anim == old(self).selected_anim,
            same_settings(*old(self), *final(self)),
    {
        self.scene.remove_object(id);
        let is_sel = match &self.selected_obj {
            Some(cur) => cur.as_str().eq(id),
            None => false,
        };
        if is_sel {
            self.selected_obj = None;
        }
    }

    /// Shows object `id` when hidden and hides it when shown.
    pub fn toggle_visibility(&mut self, id: &str)
        ensures
            final(self).scene.objects@ == match lookup(old(self).scene.objects@, id@) {
                Some(o) => old(self).scene.objects@.update(
                    first_with_id(old(self).scene.objects@, id@),
                    ManimObject { visible: !o.visible, ..o },
                ),
                None => old(self).scene.objects@,
            },
            final(self).scene.animations@ == old(self).scene.animations@,
            same_scene_settings(old(self).scene, final(self).scene),
            final(self).history == old(self).history,
            same_editor_state(*old(self), *final(self)),
    {
        if let Some(obj) = self.scene.get_object_mut(id) {
            obj.visible = !obj.visible;
        }
    }

    /// Deletes animation `id`, and clears the animation selection when it named it.
    pub fn delete_animation(&mut self, id: &str)
        ensures
            final(self).scene.animations@ == animations_without(old(self).scene.animations@, id@),
            final(self).scene.objects@ == old(self).scene.objects@,
            same_scene_settings(old(self).scene, final(self).scene),
            final(self).selected_anim == match old(self).selected_anim {
                Some(cur) => if cur@ == id@ { None } else { Some(cur) },
                None => None,
            },
            final(self).history == old(self).history,
            final(self).selected_obj == old(self).selected_obj,
            same_settings(*old(self), *final(self)),
    {
        self.scene.remove_animation(id);
        let is_sel = match &self.selected_anim {
            Some(cur) => cur.as_str().eq(id),
            None => false,
        };
        if is_sel {
            self.selected_anim = None;
        }
    }

    /// Records how a render ended: the output path on success; on failure the
    /// message, and the error log is shown.
    pub fn finish_render(&mut self, outcome: Result<String, String>)
        ensures
            match outcome {
                Ok(path) => final(self).render_status == RenderStatus::Done(path)
                    && final(self).show_error_log == old(self).show_error_log,
                Err(msg) => final(self).render_status == RenderStatus::Error(msg)
                    && final(self).show_error_log,
            },
            final(self).scene == old(self).scene,
            final(self).history == old(self).history,
            final(self).selected_obj == old(self).selected_obj,
            final(self).selected_anim == old(self).selected_anim,
            final(self).interaction_mode == old(self).interaction_mode,
            final(self).axis_constraint == old(self).axis_constraint,
            final(self).mode_origin_pos == old(self).mode_origin_pos,
            final(self).mode_origin_scale == old(self).mode_origin_scale,
            final(self).mode_origin_rotation == old(self).mode_origin_rotation,
            final(self).clipboard == old(self).clipboard,
            final(self).is_playing == old(self).is_playing,
            final(self).render_quality == old(self).render_quality,
    {
        match outcome {
            Ok(path) => {
                self.render_status = RenderStatus::Done(path);
            },
            Err(msg) => {
                self.render_status = RenderStatus::Error(msg);
                self.show_error_log = true;
            },
        }
    }
}

// ─── Laws ───────────────────────────────────────────────────────────────────

/// Undo right after a snapshot was recorded, whatever was edited in between
/// without recording, brings back the recorded scene, field by field, clears
/// the selection, and (unless recording dropped the oldest snapshot of a full
/// history) puts the cursor back where it was.
pub proof fn law_undo_restores_recorded_scene<N: Copy>(
    s0: ManimStudio<N>,
    s1: ManimStudio<N>,
    edited: ManimStudio<N>,
    s2: ManimStudio<N>,
)
    requires
        s0.wf(),
        push_history_post(s0, s1),
        edited.history.model() == s1.history.model(),
        undo_post(edited, s2),
    ensures
        scene_eq(s0.scene, s2.scene),
        s2.selected_obj is None,
        s2.selected_anim is None,
        s0.history.model().cursor < HISTORY_LIMIT ==> s2.history.model().cursor == s0.history.model().cursor,
{
    law_undo_after_recording_edit(s0, edited, s2);
}

/// Undo right after an edit that records the scene (delete, add, paste,
/// duplicate, entering a mode), whatever was edited since without recording,
/// brings back the scene as it was before the edit, field by field, clears
/// the selection, and (unless recording dropped the oldest snapshot of a full
/// history) puts the cursor back where it was.
pub proof fn law_undo_after_recording_edit<N: Copy>(s0: ManimStudio<N>, s1: ManimStudio<N>, s2: ManimStudio<N>)
    requires
        s0.wf(),
        recorded_copy(s0.history.model(), s1.history.model(), s0.scene),
        undo_post(s1, s2),
    ensures
        scene_eq(s0.scene, s2.scene),
        s2.selected_obj is None,
        s2.selected_anim is None,
        s0.history.model().cursor < HISTORY_LIMIT ==> s2.history.model().cursor == s0.history.model().cursor,
{
    let c0 = choose|c: Scene<N>| scene_eq(s0.scene, c) && s1.history.model() == model_record(s0.history.model(), c);
    let m1 = s1.history.model();
    assert(m1.entries.len() >= 1);
    assert(m1.entries[m1.cursor - 1] == c0);
    let c1 = choose|c: Scene<N>| scene_eq(s1.scene, c) && s2.history.model() == model_step_back(m1, c);
    assert(s2.history.model().entries[s2.history.model().cursor] == c0);
    lemma_scene_eq_sym_trans(s0.scene, c0, s2.scene);
}

/// A copy made from a copy of `source` is a copy of `source`.
pub proof fn lemma_copy_of_copy<N: Copy, F: Fn([N; 3]) -> [N; 3]>(
    source: ManimObject<N>,
    c: ManimObject<N>,
    added: ManimObject<N>,
    suffix: Seq<char>,
    shift: F,
)
    requires
        object_eq(source, c),
        copy_with(c, added, suffix, shift),
    ensures
        copy_with(source, added, suffix, shift),
{
    lemma_kind_eq_trans(source.object_type, c.object_type, added.object_type);
}

/// Paste right after copying the selected object adds, at the end of the
/// objects, a copy of the selected object with a fresh identifier, `_paste`
/// after its name and the position `shift` gives, and selects it.
pub proof fn law_paste_after_copy<N: Copy, F: Fn([N; 3]) -> [N; 3]>(
    s0: ManimStudio<N>,
    s1: ManimStudio<N>,
    s2: ManimStudio<N>,
    shift: F,
)
    requires
        selected_object(s0) is Some,
        copy_post(s0, s1),
        paste_post(s1, s2, shift),
    ensures
        exists|added: ManimObject<N>| {
            &&& copy_with(selected_object(s0).unwrap(), added, "_paste"@, shift)
            &&& s2.scene.objects@ == s0.scene.objects@.push(added)
            &&& s2.selected_obj matches Some(id) && id@ == added.id@
        },
{
    let o = selected_object(s0).unwrap();
    let c1 = s1.clipboard.unwrap();
    let added = choose|added: ManimObject<N>| {
        &&& copy_with(c1, added, "_paste"@, shift)
        &&& s2.scene.objects@ == s1.scene.objects@.push(added)
        &&& s2.selected_obj matches Some(id) && id@ == added.id@
    };
    assert(object_eq(o, c1));
    assert(kind_eq(o.object_type, added.object_type));
    assert(copy_with(o, added, "_paste"@, shift));
}

/// Adding two objects of one kind in a row gives them different names.
pub proof fn law_consecutive_adds_get_different_names<N: Copy>(
    s0: ManimStudio<N>,
    s1: ManimStudio<N>,
    s2: ManimStudio<N>,
    t: ObjType<N>,
    look1: Appearance<N>,
    look2: Appearance<N>,
    d1: N,
    d2: N,
)
    requires
        add_object_post(s0, s1, t, look1, d1),
        add_object_post(s1, s2, t, look2, d2),
    ensures
        s2.scene.objects@.len() == s0.scene.objects@.len() + 2,
        s2.scene.objects@.last().name@ != s1.scene.objects@.last().name@,
        s2.scene.objects@[s0.scene.objects@.len() as int] == s1.scene.objects@.last(),
{
    let o1 = s1.scene.objects@.last();
    let k = obj_type_name(t);
    law_count_of_kind_counts(s0.scene.objects@, o1, k);
    assert(s1.scene.objects@ == s0.scene.objects@.push(o1));
    let c = count_of_kind(s0.scene.objects@, k);
    let p = k + "_"@;
    let n1 = p + decimal(c + 1);
    let n2 = p + decimal(c + 2);
    assert(o1.name@ == n1);
    assert(s2.scene.objects@.last().name@ == n2);
    if n1 == n2 {
        assert(decimal(c + 1) =~= n1.skip(p.len() as int));
        assert(decimal(c + 2) =~= n2.skip(p.len() as int));
        law_decimal_injective(c + 1, c + 2);
    }
}

/// Redo right after an undo puts the cursor back and brings back, field by
/// field, what the cursor stood on: the scene as it was before the undo when
/// the undo started at the end (and then a second redo changes nothing), else
/// the snapshot at the old cursor.
pub proof fn law_redo_after_undo<N: Copy>(s0: ManimStudio<N>, s1: ManimStudio<N>, s2: ManimStudio<N>)
    requires
        s0.wf(),
        s0.history.model().cursor > 0,
        undo_post(s0, s1),
        redo_post(s1, s2),
    ensures
        s2.history.model().cursor == s0.history.model().cursor,
        s2.selected_obj is None,
        s2.selected_anim is None,
        s0.history.model().cursor == s0.history.model().entries.len() ==> {
            &&& scene_eq(s0.scene, s2.scene)
            &&& s2.history.model().cursor == s2.history.model().entries.len() - 1
            &&& forall|s3: ManimStudio<N>| redo_post(s2, s3) ==> s3 == s2
        },
        s0.history.model().cursor < s0.history.model().entries.len() ==> scene_eq(
            s0.history.model().entries[s0.history.model().cursor],
            s2.scene,
        ),
{
    let m0 = s0.history.model();
    let c = choose|c: Scene<N>| scene_eq(s0.scene, c) && s1.history.model() == model_step_back(m0, c);
    law_step_forward_after_step_back(m0, c);
    if m0.cursor == m0.entries.len() {
        let m2 = s2.history.model();
        assert(m2.entries[m2.cursor] == c);
        lemma_scene_eq_sym_trans(s0.scene, c, s2.scene);
    }
}

/// `after` is `before` with only the selected object's position, scale and
/// rotation changed, as a grab, scale or rotate does.
pub open spec fn only_transformed<N: Copy>(before: ManimStudio<N>, after: ManimStudio<N>) -> bool {
    &&& before.selected_obj matches Some(id)
    &&& has_object(before.scene.objects@, id@)
    &&& exists|p: [N; 3], sc: N, r: N| after.scene.objects@ == before.scene.objects@.update(
        first_with_id(before.scene.objects@, id@),
        #[trigger] with_transform(before.scene.objects@[first_with_id(before.scene.objects@, id@)], p, sc, r),
    )
    &&& after.scene.animations@ == before.scene.animations@
    &&& same_scene_settings(before.scene, after.scene)
    &&& after.history.model() == before.history.model()
    &&& after.selected_obj == before.selected_obj
    &&& after.mode_origin_pos == before.mode_origin_pos
    &&& after.mode_origin_scale == before.mode_origin_scale
    &&& after.mode_origin_rotation == before.mode_origin_rotation
}

/// Entering a mode, moving, scaling or turning the selected object, and
/// cancelling gives back the objects and the animations as they were before,
/// and the history as it was up to its cursor (unless recording had dropped
/// the oldest snapshot of a full history).
pub proof fn law_cancel_restores<N: Copy>(
    s0: ManimStudio<N>,
    s1: ManimStudio<N>,
    moved: ManimStudio<N>,
    s2: ManimStudio<N>,
    mode: InteractionMode,
)
    requires
        s0.wf(),
        s0.history.model().cursor < HISTORY_LIMIT,
        selected_object(s0) is Some,
        enter_mode_post(s0, s1, mode),
        only_transformed(s1, moved),
        cancel_mode_post(moved, s2),
    ensures
        s2.scene.objects@ == s0.scene.objects@,
        s2.scene.animations@ == s0.scene.animations@,
        s2.history.model() == (HistoryModel {
            entries: s0.history.model().entries.take(s0.history.model().cursor),
            cursor: s0.history.model().cursor,
        }),
        s2.interaction_mode == InteractionMode::Normal,
{
    let id = s0.selected_obj.unwrap();
    let objs = s0.scene.objects@;
    let i = first_with_id(objs, id@);
    crate::scene::lemma_has_object_first(objs, id@);
    let o = objs[i];
    let (p, sc, r) = choose|p: [N; 3], sc: N, r: N| moved.scene.objects@ == objs.update(
        i,
        #[trigger] with_transform(o, p, sc, r),
    );
    let moved_objs = moved.scene.objects@;
    assert forall|j: int| 0 <= j < i implies moved_objs[j].id@ != id@ by {
        assert(moved_objs[j] == objs[j]);
    }
    lemma_first_with_id(moved_objs, id@, i);
    assert(s2.scene.objects@ =~= objs);
    let c = choose|c: Scene<N>| scene_eq(s0.scene, c) && s1.history.model() == model_record(s0.history.model(), c);
    law_discard_after_record(s0.history.model(), c);
}

/// Once the selected object is deleted, no object has its identifier and no
/// animation refers to it.
pub proof fn law_delete_leaves_nothing_of_object<N: Copy>(pre: ManimStudio<N>, post: ManimStudio<N>)
    requires
        delete_post(pre, post),
        pre.selected_obj is Some,
    ensures
        !has_object(post.scene.objects@, pre.selected_obj.unwrap()@),
        forall|i: int| 0 <= i < post.scene.animations@.len()
            ==> post.scene.animations@[i].object_id@ != pre.selected_obj.unwrap()@,
{
    broadcast use vstd::seq_lib::group_filter_ensures;
    let id = pre.selected_obj.unwrap();
    let kept_objs = objects_without(pre.scene.objects@, id@);
    assert forall|i: int| 0 <= i < kept_objs.len() implies kept_objs[i].id@ != id@ by {
        let keep = |o: ManimObject<N>| o.id@ != id@;
        assert(keep(pre.scene.objects@.filter(keep)[i]));
    }
    let a1 = animations_without_object(pre.scene.animations@, id@);
    assert forall|i: int| 0 <= i < a1.len() implies a1[i].object_id@ != id@ by {
        let keep = |a: AnimEntry<N>| a.object_id@ != id@;
        assert(keep(pre.scene.animations@.filter(keep)[i]));
    }
    match pre.selected_anim {
        Some(aid) => {
            let a2 = animations_without(a1, aid@);
            assert forall|i: int| 0 <= i < a2.len() implies a2[i].object_id@ != id@ by {
                let keep = |a: AnimEntry<N>| a.id@ != aid@;
                assert(a1.filter(keep)[i] == a2[i]);
                assert(a1.filter(keep).contains(a2[i]));
                a1.lemma_filter_contains_rev(keep, a2[i]);
                let j = choose|j: int| 0 <= j < a1.len() && a1[j] == a2[i];
                assert(a1[j].object_id@ != id@);
            }
        },
        None => {},
    }
}

} // verus!
